use reml_frontend::diagnostic::report::build_parser_diagnostics;
use reml_frontend::parser::driver::ParserDriver;
use reml_frontend::parser::trace::append_module_trace_events;

#[test]
fn parser_diagnostics_are_located_by_line_and_column() {
    let source = "fn f() = 1\nfn g(x = x";
    let result = ParserDriver::parse(source);
    assert_eq!(result.diagnostics.len(), 1);
    let report = build_parser_diagnostics(&result.diagnostics, source, &Vec::new(), false);
    assert_eq!(report.len(), 1);
    let entry = &report[0];
    assert_eq!(entry.severity, "error");
    assert_eq!(entry.domain, "parser");
    assert_eq!(entry.code, "parser.syntax.expected_tokens");
    assert_eq!(entry.codes, vec!["parser.syntax.expected_tokens".to_string()]);
    assert_eq!(entry.message, "構文エラー: 入力を解釈できません");
    // The error stands at the `=` after `x`: byte 18, line 2, column 8.
    assert_eq!(
        (entry.location.line, entry.location.column, entry.location.end_line, entry.location.end_column),
        (2, 8, 2, 9)
    );
    assert_eq!(entry.notes.len(), 1);
    assert_eq!(entry.notes[0].label, "recover.expected_tokens");
    assert!(entry.trace_ids.is_empty());
}

#[test]
fn parser_diagnostics_carry_overlapping_trace_ids() {
    let parsed = ParserDriver::parse("fn f() = a + b");
    let module = parsed.value.expect("module");
    let mut events = Vec::new();
    append_module_trace_events(&module, &mut events);
    let lexed_error = ParserDriver::parse("fn f() = a + b $");
    let report = build_parser_diagnostics(&lexed_error.diagnostics, "fn f() = a + b $", &events, false);
    assert_eq!(report.len(), 1);
    assert_eq!(report[0].code, "parser.lexer.unknown_token");
    // The `$` at byte 15 lies beyond every expression's span.
    assert!(report[0].trace_ids.is_empty());
    assert_eq!((report[0].location.line, report[0].location.column), (1, 16));

    let overlapping = ParserDriver::parse("fn f() = a $ b");
    let report = build_parser_diagnostics(&overlapping.diagnostics, "fn f() = a $ b", &events, false);
    // The unknown `$` at bytes 11..12 lies inside the binary expression's span 9..14.
    let expected: Vec<String> = events
        .iter()
        .filter(|e| e.span.start < 12 && 11 < e.span.end)
        .map(|e| e.trace_id.to_string())
        .collect();
    assert!(!expected.is_empty());
    let lexer_entry = report.iter().find(|r| r.code == "parser.lexer.unknown_token").unwrap();
    assert_eq!(lexer_entry.trace_ids, expected);
}

#[test]
fn streaming_reports_one_lexer_placeholder() {
    let source = "fn f() = a $+ b @";
    let result = ParserDriver::parse(source);
    assert_eq!(result.diagnostics.len(), 2);
    assert_eq!(build_parser_diagnostics(&result.diagnostics, source, &Vec::new(), false).len(), 2);
    let streamed = build_parser_diagnostics(&result.diagnostics, source, &Vec::new(), true);
    assert_eq!(streamed.len(), 1);
    assert_eq!(streamed[0].code, "parser.lexer.unknown_token");
    assert_eq!(streamed[0].location.column, 12);
}

#[test]
fn streaming_drops_placeholders_when_recovery_is_noted() {
    let source = "fn f( $";
    let result = ParserDriver::parse(source);
    let codes: Vec<&str> = result.diagnostics.iter().map(|d| d.code.as_str()).collect();
    assert_eq!(codes, vec!["parser.lexer.unknown_token", "parser.syntax.expected_tokens"]);
    let streamed = build_parser_diagnostics(&result.diagnostics, source, &Vec::new(), true);
    assert_eq!(streamed.len(), 1);
    assert_eq!(streamed[0].code, "parser.syntax.expected_tokens");
}
