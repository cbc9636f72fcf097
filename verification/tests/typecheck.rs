use reml_frontend::diagnostic::typecheck::{build_type_diagnostics, TypeViolation};
use reml_frontend::parser::driver::DiagnosticNote;
use reml_frontend::span::Span;
use reml_frontend::value::JsonValue;

fn violation(code: &str, span: Span) -> TypeViolation {
    TypeViolation {
        code: code.to_string(),
        message: format!("violation {code}"),
        domain: "type".to_string(),
        span,
        notes: vec![DiagnosticNote { label: "hint".to_string(), message: "look here".to_string() }],
    }
}

fn experimental_stage() -> Vec<(String, JsonValue)> {
    vec![("effect.stage.required".to_string(), JsonValue::Str("Experimental".to_string()))]
}

#[test]
fn violations_become_located_entries() {
    let source = "let a = 1\nlet b = a + c\n";
    let vs = vec![violation("typeck.rec.unresolved_ident", Span::new(22, 23))];
    let r = build_type_diagnostics(&vs, source, false, &vec![Vec::new()]);
    assert_eq!(r.len(), 1);
    let d = &r[0];
    assert_eq!(d.severity, "error");
    assert_eq!(d.domain, "type");
    assert_eq!(d.code, "typeck.rec.unresolved_ident");
    assert_eq!(d.codes, vec!["typeck.rec.unresolved_ident".to_string()]);
    assert_eq!(d.message, "violation typeck.rec.unresolved_ident");
    assert_eq!((d.location.line, d.location.column), (2, 13));
    assert_eq!((d.location.end_line, d.location.end_column), (2, 14));
    assert_eq!(d.notes.len(), 1);
    assert!(d.trace_ids.is_empty());
}

#[test]
fn experimental_violations_are_downgraded_unless_acknowledged() {
    let vs = vec![violation("typeck.unknown", Span::new(0, 1)), violation("typeck.unknown", Span::new(0, 1))];
    let exts = vec![experimental_stage(), Vec::new()];
    let r = build_type_diagnostics(&vs, "x", false, &exts);
    assert_eq!(r[0].severity, "warning");
    assert_eq!(r[1].severity, "error");
    let acknowledged = build_type_diagnostics(&vs, "x", true, &exts);
    assert_eq!(acknowledged[0].severity, "error");
}

#[test]
fn no_violations_no_entries() {
    assert!(build_type_diagnostics(&Vec::new(), "", false, &Vec::new()).is_empty());
}
