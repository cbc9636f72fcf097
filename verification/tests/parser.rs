use reml_frontend::parser::driver::ParserDriver;
use reml_frontend::parser::grammar::{int_literal_value, parse_module};
use reml_frontend::lexer::lex_source;

struct Case {
    source: &'static str,
    expected_ast: Option<&'static str>,
    expected_messages: &'static [&'static str],
}

fn run_case(case: &Case) {
    let result = ParserDriver::parse(case.source);

    match (result.ast_render(), case.expected_ast) {
        (Some(actual), Some(expected)) => assert_eq!(actual, expected),
        (None, None) => {}
        (actual, expected) => panic!("AST mismatch: actual={actual:?}, expected={expected:?}"),
    }

    assert_eq!(
        result.diagnostics.len(),
        case.expected_messages.len(),
        "diagnostic count mismatch"
    );

    for (diag, expected_message) in result.diagnostics.iter().zip(case.expected_messages.iter()) {
        assert_eq!(&diag.message, expected_message);
    }
}

#[test]
fn basic_roundtrip() {
    let cases = [
        Case {
            source: "fn answer() = 42",
            expected_ast: Some("fn answer() = int(42:base10)"),
            expected_messages: &[],
        },
        Case {
            source: "fn log(x) = x\nfn log_twice(x) = log(log(x))",
            expected_ast: Some(
                "fn log(x) = var(x)\nfn log_twice(x) = call(var(log))[call(var(log))[var(x)]]",
            ),
            expected_messages: &[],
        },
        Case {
            source: "fn add(x, y) = x + y",
            expected_ast: Some("fn add(x, y) = binary(var(x) + var(y))"),
            expected_messages: &[],
        },
        Case {
            source: r#"effect ConsoleLog
fn emit(msg: String) = perform ConsoleLog(msg)
fn main() = emit("leak")"#,
            expected_ast: Some(
                "effect ConsoleLog\nfn emit(msg) = perform ConsoleLog var(msg)\nfn main() = call(var(emit))[str(\"leak\")]",
            ),
            expected_messages: &[],
        },
        Case {
            source: "fn missing(x = x",
            expected_ast: None,
            expected_messages: &["構文エラー: 入力を解釈できません"],
        },
    ];

    for case in cases.iter() {
        run_case(case);
    }

    let error_case = ParserDriver::parse("fn missing(x = x");
    assert_eq!(error_case.diagnostics.len(), 1);
    let diag = &error_case.diagnostics[0];
    assert_eq!(diag.message, "構文エラー: 入力を解釈できません");
    assert!(!diag.notes.is_empty());
    assert_eq!(diag.notes[0].label, "recover.expected_tokens");
    assert_eq!(
        diag.notes[0].message,
        "ここで`)`、`,` または `:`のいずれかが必要です"
    );
}

#[test]
fn addition_groups_to_the_left() {
    let r = ParserDriver::parse("fn f(a, b, c) = a + b + c");
    assert_eq!(
        r.ast_render().unwrap(),
        "fn f(a, b, c) = binary(binary(var(a) + var(b)) + var(c))"
    );
}

#[test]
fn parentheses_group_and_calls_chain() {
    let r = ParserDriver::parse("fn f(a, b) = a + (b + 1)\nfn g(h) = h(1)(2, 3,)");
    assert_eq!(
        r.ast_render().unwrap(),
        "fn f(a, b) = binary(var(a) + binary(var(b) + int(1:base10)))\nfn g(h) = call(call(var(h))[int(1:base10)])[int(2:base10), int(3:base10)]"
    );
    assert!(r.diagnostics.is_empty());
}

#[test]
fn typed_parameters_and_return_type() {
    let r = ParserDriver::parse("fn id(x: Int, y: Int,) -> Int = x");
    assert_eq!(r.ast_render().unwrap(), "fn id(x, y) -> Int = var(x)");
    let m = r.value.unwrap();
    let ty = m.functions[0].params[1].type_annotation.as_ref().unwrap();
    assert_eq!(ty.render(), "Int");
}

#[test]
fn empty_module_parses() {
    let r = ParserDriver::parse("  // nothing here\n");
    assert_eq!(r.ast_render().unwrap(), "");
    assert!(r.diagnostics.is_empty());
}

#[test]
fn function_spans_run_from_fn_to_body_end() {
    let r = ParserDriver::parse("fn answer() = 42");
    let m = r.value.unwrap();
    assert_eq!(m.functions[0].span.start, 0);
    assert_eq!(m.functions[0].span.end, 16);
    assert_eq!(m.functions[0].body.span.start, 14);
}

#[test]
fn missing_name_expects_identifier() {
    let r = ParserDriver::parse("fn (x) = x");
    assert!(r.value.is_none());
    assert_eq!(r.diagnostics.len(), 1);
    assert_eq!(r.diagnostics[0].code, "parser.syntax.expected_tokens");
    assert_eq!(r.diagnostics[0].notes[0].message, "ここで`identifier`が必要です");
    assert_eq!(r.diagnostics[0].span.start, 3);
}

#[test]
fn stray_item_expects_an_item_or_end() {
    let r = ParserDriver::parse("x = 1");
    assert!(r.value.is_none());
    assert_eq!(
        r.diagnostics[0].notes[0].message,
        "ここで`effect`、`end-of-input`、`fn` または `let`のいずれかが必要です"
    );
}

#[test]
fn missing_body_expects_arrow_or_assign() {
    let r = ParserDriver::parse("fn f()");
    assert_eq!(
        r.diagnostics[0].notes[0].message,
        "ここで`->` または `=`のいずれかが必要です"
    );
    let r = ParserDriver::parse("fn f() = ");
    assert_eq!(
        r.diagnostics[0].notes[0].message,
        "ここで`(`、`false`、`identifier`、`if`、`integer-literal`、`perform`、`string-literal` または `true`のいずれかが必要です"
    );
}

#[test]
fn lexer_errors_come_before_the_parse_error() {
    let r = ParserDriver::parse("fn f() = 1 $");
    assert!(r.value.is_some());
    assert_eq!(r.diagnostics.len(), 1);
    assert_eq!(r.diagnostics[0].code, "parser.lexer.unknown_token");
    assert_eq!(r.diagnostics[0].notes[0].label, "lexer");
    let r = ParserDriver::parse("fn $ f");
    assert_eq!(r.diagnostics.len(), 2);
    assert_eq!(r.diagnostics[0].code, "parser.lexer.unknown_token");
    assert_eq!(r.diagnostics[1].code, "parser.syntax.expected_tokens");
}

#[test]
fn parse_module_reads_tokens() {
    let lexed = lex_source("fn one() = 1");
    let m = parse_module(&lexed.tokens).unwrap();
    assert_eq!(m.functions.len(), 1);
    assert_eq!(m.functions[0].name.name, "one");
    let lexed = lex_source("fn one(");
    let e = parse_module(&lexed.tokens).unwrap_err();
    assert_eq!(e.expected, vec![")".to_string(), "identifier".to_string()]);
}

#[test]
fn integer_literals_read_as_i64_or_zero() {
    assert_eq!(int_literal_value("42"), 42);
    assert_eq!(int_literal_value("-7"), -7);
    assert_eq!(int_literal_value("+7"), 7);
    assert_eq!(int_literal_value("9223372036854775807"), i64::MAX);
    assert_eq!(int_literal_value("-9223372036854775808"), i64::MIN);
    assert_eq!(int_literal_value("9223372036854775808"), 0);
    assert_eq!(int_literal_value("99999999999999999999999"), 0);
    assert_eq!(int_literal_value("1x"), 0);
    assert_eq!(int_literal_value(""), 0);
    assert_eq!(int_literal_value("-"), 0);
    let r = ParserDriver::parse("fn big() = 99999999999999999999");
    assert_eq!(r.ast_render().unwrap(), "fn big() = int(0:base10)");
}

#[test]
fn top_level_let_declarations() {
    let r = ParserDriver::parse("let answer: Int = 41 + 1\nfn f() = answer");
    assert!(r.diagnostics.is_empty());
    assert_eq!(
        r.ast_render().unwrap(),
        "let answer = binary(int(41:base10) + int(1:base10))\nfn f() = var(answer)"
    );
    let r = ParserDriver::parse("let x = (a)");
    let m = r.value.unwrap();
    assert_eq!(m.decls.len(), 1);
    assert_eq!((m.decls[0].span.start, m.decls[0].span.end), (0, 11));
    let r = ParserDriver::parse("let x 1");
    assert_eq!(r.diagnostics[0].notes[0].message, "ここで`:` または `=`のいずれかが必要です");
}

#[test]
fn parse_failure_records_offset_and_expected_summary() {
    let result = ParserDriver::parse("fn broken( ->");
    assert!(result.value.is_none());
    assert!(!result.diagnostics.is_empty());
    assert!(result.farthest_error_offset.is_some());

    let diag = result.diagnostics.first().expect("diagnostics missing");
    assert!(
        diag.expected_summary
            .as_ref()
            .map(|summary| summary.has_alternatives())
            .unwrap_or(false),
        "expected summary alternatives missing"
    );

    let legacy = result.legacy_error.expect("legacy error missing");
    assert!(
        !legacy.expected.is_empty(),
        "legacy expected tokens should not be empty"
    );
}

#[test]
fn lexer_error_generates_diagnostics() {
    let result = ParserDriver::parse("fn @@@");
    assert!(
        !result.diagnostics.is_empty(),
        "lexer error should produce diagnostics"
    );
}

#[test]
fn farthest_offset_is_the_largest_span_end() {
    let r = ParserDriver::parse("fn f() = 1 $ $");
    assert_eq!(r.diagnostics.len(), 2);
    assert_eq!(r.farthest_error_offset, Some(14));
    assert!(r.legacy_error.is_none());
    let r = ParserDriver::parse("fn f() = 1");
    assert_eq!(r.farthest_error_offset, None);
}

#[test]
fn arithmetic_groups_left_with_precedence() {
    let r = ParserDriver::parse("fn f(a, b, c) = a - b - c");
    assert_eq!(
        r.ast_render().unwrap(),
        "fn f(a, b, c) = binary(binary(var(a) - var(b)) - var(c))"
    );
    let r = ParserDriver::parse("fn g(a, b, c) = a + b * c % 2 == a / b");
    assert_eq!(
        r.ast_render().unwrap(),
        "fn g(a, b, c) = binary(binary(var(a) + binary(binary(var(b) * var(c)) % int(2:base10))) == binary(var(a) / var(b)))"
    );
    let r = ParserDriver::parse("fn h(a, b) = a <= b != a > b");
    assert_eq!(
        r.ast_render().unwrap(),
        "fn h(a, b) = binary(binary(binary(var(a) <= var(b)) != var(a)) > var(b))"
    );
}

#[test]
fn conditionals_booleans_and_assignments() {
    let r = ParserDriver::parse("fn f(x) = if x < 1 then true else false");
    assert_eq!(
        r.ast_render().unwrap(),
        "fn f(x) = if binary(var(x) < int(1:base10)) then bool(true) else bool(false)"
    );
    let m = r.value.unwrap();
    assert_eq!((m.functions[0].body.span.start, m.functions[0].body.span.end), (10, 39));
    let r = ParserDriver::parse("fn g(x) = x = x + 1");
    assert_eq!(r.ast_render().unwrap(), "fn g(x) = assign(var(x) := binary(var(x) + int(1:base10)))");
    let r = ParserDriver::parse("fn h(x) = if x then 1");
    assert_eq!(
        r.diagnostics[0].notes[0].message,
        "ここで`(`、`else` または `operator`のいずれかが必要です"
    );
}

#[test]
fn perform_arguments_and_effect_tags() {
    let r = ParserDriver::parse("effect Log : io\nfn f() = perform Log()\nfn g(a, b) = perform Log(a, b,)");
    assert_eq!(
        r.ast_render().unwrap(),
        "effect Log\nfn f() = perform Log unit\nfn g(a, b) = perform Log tuple(var(a), var(b))"
    );
    let m = r.value.unwrap();
    assert_eq!(m.effects[0].tag.as_ref().unwrap().name, "io");
    assert_eq!((m.effects[0].span.start, m.effects[0].span.end), (0, 15));
    let r = ParserDriver::parse("effect 1");
    assert_eq!(r.diagnostics[0].notes[0].message, "ここで`identifier`が必要です");
}

#[test]
fn string_literals_unescape_quotes() {
    let r = ParserDriver::parse(r#"fn s() = "say \"hi\"""#);
    assert_eq!(r.ast_render().unwrap(), r#"fn s() = str("say "hi"")"#);
    assert!(r.diagnostics.is_empty());
    let r = ParserDriver::parse("fn s() = \"open");
    assert_eq!(r.diagnostics[0].code, "parser.lexer.unknown_token");
    assert_eq!(r.ast_render().unwrap(), "fn s() = var(open)");
}
