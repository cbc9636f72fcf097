use reml_frontend::cli::StreamSettings;
use reml_frontend::diagnostic::audit::{build_audit_metadata, AuditInputs};
use reml_frontend::streaming::flow::{StreamFlowConfig, StreamFlowState};
use reml_frontend::value::JsonValue;
use reml_frontend::workspace::{IdentifierProfile, LeftRecursionMode, RunSettings};

fn get<'a>(m: &'a [(String, JsonValue)], key: &str) -> Option<&'a JsonValue> {
    m.iter().find(|(k, _)| k == key).map(|(_, v)| v)
}

fn text(v: Option<&JsonValue>) -> Option<&str> {
    match v {
        Some(JsonValue::Str(s)) => Some(s.as_str()),
        _ => None,
    }
}

fn inputs(resume: Option<&str>) -> AuditInputs {
    let mut config = StreamFlowConfig::default();
    config.enabled = true;
    config.packrat_enabled = true;
    config.resume_hint = resume.map(|s| s.to_string());
    let mut flow = StreamFlowState::new(config);
    flow.checkpoint_end();
    AuditInputs {
        timestamp: "2024-01-02T03:04:05Z".to_string(),
        domain: "parser".to_string(),
        run: RunSettings {
            left_recursion: LeftRecursionMode::On,
            lex_identifier_profile: IdentifierProfile::Unicode,
            trace: true,
            merge_warnings: false,
            allow_top_level_expr: false,
            ack_experimental_diagnostics: true,
            packrat: false,
            require_eof: true,
            legacy_result: false,
            experimental_effects: false,
        },
        stream: StreamSettings {
            enabled: true,
            resume_hint: None,
            flow_policy: None,
            flow_max_lag: Some(7),
            demand_min_bytes: None,
            demand_preferred_bytes: Some(128),
            checkpoint: Some("cp-1".to_string()),
            chunk_size: None,
        },
        flow,
    }
}

#[test]
fn audit_metadata_names_the_event_and_parser() {
    let m = build_audit_metadata(&inputs(None));
    assert_eq!(m[0].0, "event.domain");
    assert_eq!(text(get(&m, "event.domain")), Some("parser"));
    assert_eq!(text(get(&m, "event.kind")), Some("diagnostic"));
    assert_eq!(text(get(&m, "schema.version")), Some("3.0.0-alpha"));
    assert_eq!(text(get(&m, "parser.core.rule.fingerprint")), Some("rust-frontend-0001"));
    assert_eq!(text(get(&m, "audit.timestamp")), Some("2024-01-02T03:04:05Z"));
    assert_eq!(text(get(&m, "audit.channel")), Some("cli"));
    assert!(matches!(get(&m, "parser.core.rule.ordinal"), Some(JsonValue::UInt(0))));
}

#[test]
fn audit_metadata_records_switches_and_stream_defaults() {
    let m = build_audit_metadata(&inputs(None));
    assert!(matches!(get(&m, "parser.runconfig.switches.trace"), Some(JsonValue::Bool(true))));
    assert!(matches!(get(&m, "parser.runconfig.switches.packrat"), Some(JsonValue::Bool(false))));
    assert_eq!(text(get(&m, "parser.stream.resume_hint")), Some("unspecified"));
    assert_eq!(text(get(&m, "parser.stream.flow_policy")), Some("auto"));
    assert_eq!(text(get(&m, "parser.stream.checkpoint")), Some("cp-1"));
    assert!(matches!(get(&m, "parser.stream.demand_min_bytes"), Some(JsonValue::UInt(0))));
    assert!(matches!(get(&m, "parser.stream.demand_preferred_bytes"), Some(JsonValue::UInt(128))));
    assert!(matches!(get(&m, "parser.stream.flow_max_lag"), Some(JsonValue::UInt(7))));
    assert!(matches!(get(&m, "parser.stream.packrat_enabled"), Some(JsonValue::Bool(true))));
    assert!(matches!(get(&m, "parser.stream.flow.checkpoints_closed"), Some(JsonValue::UInt(1))));
    assert!(get(&m, "parser.stream.flow.resume_source").is_none());
    assert_eq!(text(get(&m, "parser.runconfig.switches.left_recursion")), Some("on"));
    assert!(matches!(get(&m, "parser.runconfig.switches.legacy_result"), Some(JsonValue::Bool(false))));
    assert_eq!(m.len(), 34);
}

#[test]
fn audit_metadata_records_the_runtime_resume_hint() {
    let m = build_audit_metadata(&inputs(Some("token")));
    assert_eq!(text(get(&m, "parser.stream.flow.resume_source")), Some("token"));
    assert_eq!(m.len(), 35);
}
