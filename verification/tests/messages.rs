use reml_frontend::diagnostic::messages::{
    find_language_message, find_message, find_pattern_message, language_messages,
    pattern_messages,
};
use reml_frontend::diagnostic::DiagnosticSeverity;

#[test]
fn registry_contains_language_codes() {
    assert!(find_language_message("parser.rec.invalid_form").is_some());
    assert!(find_language_message("parser.rec.unsupported_position").is_some());
    assert!(find_language_message("parser.lambda.param_missing").is_some());
    assert!(find_language_message("typeck.lambda.capture_unsupported").is_some());
    assert!(find_language_message("typeck.lambda.capture_mut_unsupported").is_some());
    assert!(find_language_message("typeck.rec.unresolved_ident").is_some());
}

#[test]
fn registry_contains_all_pattern_codes() {
    assert!(find_pattern_message("pattern.active.return_contract_invalid").is_some());
    assert!(find_pattern_message("pattern.active.effect_violation").is_some());
    assert!(find_pattern_message("pattern.exhaustiveness.missing").is_some());
    assert!(find_pattern_message("pattern.unreachable_arm").is_some());
    assert!(find_pattern_message("pattern.active.name_conflict").is_some());
}

#[test]
fn registries_have_expected_sizes_and_order() {
    let lang = language_messages();
    assert_eq!(lang.len(), 6);
    assert_eq!(lang[0].code, "parser.rec.invalid_form");
    assert_eq!(lang[5].code, "typeck.rec.unresolved_ident");
    let pats = pattern_messages();
    assert_eq!(pats.len(), 5);
    assert_eq!(pats[3].code, "pattern.exhaustiveness.missing");
    assert_eq!(pats[3].severity, DiagnosticSeverity::Warning);
}

#[test]
fn unknown_codes_are_not_found() {
    assert!(find_language_message("pattern.unreachable_arm").is_none());
    assert!(find_pattern_message("parser.rec.invalid_form").is_none());
    assert!(find_message("nope").is_none());
    assert!(find_language_message("").is_none());
}

#[test]
fn find_message_searches_pattern_then_language() {
    let p = find_message("pattern.unreachable_arm").expect("pattern template");
    assert_eq!(p.code, "pattern.unreachable_arm");
    assert_eq!(p.severity, DiagnosticSeverity::Warning);
    let l = find_message("typeck.rec.unresolved_ident").expect("language template");
    assert_eq!(l.title, "`rec` 参照が未解決です");
    assert_eq!(l.severity, DiagnosticSeverity::Error);
}

#[test]
fn language_codes_are_distinct_and_found() {
    let lang = language_messages();
    for (i, a) in lang.iter().enumerate() {
        assert_eq!(a.severity, DiagnosticSeverity::Error);
        for b in lang.iter().skip(i + 1) {
            assert_ne!(a.code, b.code);
        }
        assert_eq!(find_language_message(a.code).map(|m| m.code), Some(a.code));
    }
    assert!(find_language_message("parser.rec.other").is_none());
}
