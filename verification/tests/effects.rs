use reml_frontend::diagnostic::effects::{
    copy_value, EffectAuditContext, RuntimeCapability, StageContext,
};
use reml_frontend::value::JsonValue;

fn cap(id: &str, stage: &str) -> RuntimeCapability {
    RuntimeCapability { id: id.to_string(), stage: stage.to_string() }
}

#[test]
fn primary_capability_is_the_first_one() {
    let ctx = EffectAuditContext::new(
        Some("beta".to_string()),
        None,
        vec![cap("io.console", "stable"), cap("io.fs", "beta")],
        Vec::new(),
    );
    assert_eq!(ctx.primary_capability(), Some("io.console"));
    let empty = EffectAuditContext::new(None, None, Vec::new(), Vec::new());
    assert_eq!(empty.primary_capability(), None);
}

#[test]
fn context_from_stage_context_copies_its_parts() {
    let stage = StageContext {
        capability: "experimental".to_string(),
        runtime: "stable".to_string(),
        stage_trace: vec![JsonValue::Object(vec![(
            "source".to_string(),
            JsonValue::Str("typeck".to_string()),
        )])],
    };
    let caps = vec![cap("net", "experimental")];
    let ctx = EffectAuditContext::from_stage_context(&stage, &caps);
    assert_eq!(ctx.primary_capability(), Some("net"));
    let text = format!("{ctx:?}");
    assert!(text.contains("required_stage: Some(\"experimental\")"));
    assert!(text.contains("actual_stage: Some(\"stable\")"));
    assert!(text.contains("typeck"));
}

#[test]
fn copied_values_are_equal_in_content() {
    let v = JsonValue::Object(vec![
        ("a".to_string(), JsonValue::UInt(3)),
        (
            "b".to_string(),
            JsonValue::Object(vec![("c".to_string(), JsonValue::Bool(true))]),
        ),
        ("d".to_string(), JsonValue::Other),
    ]);
    assert_eq!(format!("{:?}", copy_value(&v)), format!("{v:?}"));
}
