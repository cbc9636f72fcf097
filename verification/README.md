# reml_frontend

The front end of the Reml language as a Verus library: every function in
`src/` carries a contract that Verus proves.

## Layout

- `src/span.rs`, `src/token.rs`, `src/error.rs`, `src/text.rs`: source spans,
  tokens, front-end errors, and the string operations the rest is built on.
- `src/lexer/`: the lexer, from characters to tokens with byte spans.
- `src/parser/`: the surface syntax. `grammar.rs` holds the grammar
  (`effect` declarations, `let`, `fn`, conditionals, `perform`, assignments,
  comparisons, arithmetic, calls, string/integer/boolean literals) as a spec
  function and a parser proved against it; `driver.rs` runs lexer and parser
  and collects diagnostics; `render.rs` and `debug_text.rs` give the AST its
  text; `handlers.rs` reports `handle` expressions written without `with`;
  `trace.rs` records parser events.
- `src/diagnostic/`: message registries, line/column positions, report
  entries for parser diagnostics and type-checker violations, the downgrade of
  experimental diagnostics, audit metadata and timestamps.
- `src/streaming/`: streaming state and the stream runtime's counters.
- `src/semantics/`: typed modules and their lowering to MIR.
- `src/cli.rs`, `src/workspace.rs`, `src/build_config.rs`: the decisions of
  the command-line front end: settings, workspace configuration, exit status.
- `app/`: the command-line program: argument handling, file reading, JSON
  parsing and printing around the library.
- `tests/`: tests of the library on concrete inputs.

Calls into std that Verus cannot read (the system clock, `str`'s `Debug`)
and into `smol_str` stand behind small trusted wrappers whose contracts are
stated next to them.
