use reml_frontend::cli::StreamSettings;
use reml_frontend::value::JsonValue;
use reml_frontend::workspace::{
    apply_workspace_config, CapabilityEntry, ConfigOverrides, IdentifierProfile, LeftRecursionMode,
    RunSettings, TypeRowMode, WorkspaceExtras,
};

fn obj(entries: Vec<(&str, JsonValue)>) -> JsonValue {
    JsonValue::Object(entries.into_iter().map(|(k, v)| (k.to_string(), v)).collect())
}

fn run_defaults() -> RunSettings {
    RunSettings {
        left_recursion: LeftRecursionMode::Auto,
        lex_identifier_profile: IdentifierProfile::Unicode,
        trace: false,
        merge_warnings: true,
        allow_top_level_expr: false,
        ack_experimental_diagnostics: false,
        packrat: false,
        require_eof: false,
        legacy_result: false,
        experimental_effects: false,
    }
}

fn stream_defaults() -> StreamSettings {
    StreamSettings {
        enabled: false,
        resume_hint: None,
        flow_policy: Some("auto".to_string()),
        flow_max_lag: None,
        demand_min_bytes: None,
        demand_preferred_bytes: None,
        checkpoint: None,
        chunk_size: Some(4),
    }
}

const NONE_FIXED: ConfigOverrides = ConfigOverrides {
    trace: false,
    merge_warnings: false,
    allow_top_level_expr: false,
    diagnostic_filter: false,
    audit_policy: false,
};

fn no_extras() -> WorkspaceExtras {
    WorkspaceExtras {
        row_mode: None,
        emit_typeck_debug: None,
        lex_identifier_locale: None,
        diagnostic_filter: None,
        audit_policy: None,
        runtime_capabilities: Vec::new(),
    }
}

fn s(text: &str) -> JsonValue {
    JsonValue::Str(text.to_string())
}

#[test]
fn parser_and_effects_sections_set_run_settings() {
    let root = obj(vec![
        (
            "parser",
            obj(vec![
                ("trace", JsonValue::Bool(true)),
                ("merge_warnings", JsonValue::Bool(false)),
                ("packrat", JsonValue::Bool(true)),
                ("require_eof", JsonValue::Str("yes".to_string())),
            ]),
        ),
        ("effects", obj(vec![("experimental_effects", JsonValue::Bool(true))])),
    ]);
    let mut run = run_defaults();
    let mut stream = stream_defaults();
    apply_workspace_config(&root, &mut run, &mut stream, &mut no_extras(), NONE_FIXED);
    assert!(run.trace);
    assert!(!run.merge_warnings);
    assert!(run.packrat);
    assert!(!run.require_eof);
    assert!(run.experimental_effects);
    assert!(!run.allow_top_level_expr);
}

#[test]
fn command_line_choices_are_kept() {
    let root = obj(vec![(
        "parser",
        obj(vec![
            ("trace", JsonValue::Bool(true)),
            ("allow_top_level_expr", JsonValue::Bool(true)),
            ("ack_experimental_diagnostics", JsonValue::Bool(true)),
        ]),
    )]);
    let mut run = run_defaults();
    let mut stream = stream_defaults();
    let fixed = ConfigOverrides {
        trace: true,
        merge_warnings: false,
        allow_top_level_expr: true,
        diagnostic_filter: false,
        audit_policy: false,
    };
    apply_workspace_config(&root, &mut run, &mut stream, &mut no_extras(), fixed);
    assert!(!run.trace);
    assert!(!run.allow_top_level_expr);
    assert!(run.ack_experimental_diagnostics);
}

#[test]
fn stream_section_sets_stream_settings() {
    let root = obj(vec![(
        "parser",
        obj(vec![(
            "stream",
            obj(vec![
                ("enabled", JsonValue::Bool(true)),
                ("resume_hint", JsonValue::Str("line".to_string())),
                ("demand_min_bytes", JsonValue::UInt(64)),
                ("flow_max_lag", JsonValue::Other),
                ("checkpoint", JsonValue::Str("cp".to_string())),
            ]),
        )]),
    )]);
    let mut run = run_defaults();
    let mut stream = stream_defaults();
    apply_workspace_config(&root, &mut run, &mut stream, &mut no_extras(), NONE_FIXED);
    assert!(stream.enabled);
    assert_eq!(stream.resume_hint.as_deref(), Some("line"));
    assert_eq!(stream.demand_min_bytes, Some(64));
    assert_eq!(stream.flow_max_lag, None);
    assert_eq!(stream.checkpoint.as_deref(), Some("cp"));
    assert_eq!(stream.flow_policy.as_deref(), Some("auto"));
    assert_eq!(stream.chunk_size, Some(4));
}

#[test]
fn a_document_that_is_not_an_object_changes_nothing() {
    let mut run = run_defaults();
    let mut stream = stream_defaults();
    apply_workspace_config(&JsonValue::Other, &mut run, &mut stream, &mut no_extras(), NONE_FIXED);
    assert_eq!(run, run_defaults());
    assert!(!stream.enabled);
    assert_eq!(stream.chunk_size, Some(4));
}

#[test]
fn left_recursion_and_identifier_profile_are_read() {
    let root = obj(vec![(
        "parser",
        obj(vec![
            ("left_recursion", s("off")),
            ("extensions", obj(vec![("lex", obj(vec![("identifier_profile", s("ascii-compat"))]))])),
        ]),
    )]);
    let mut run = run_defaults();
    let mut stream = stream_defaults();
    apply_workspace_config(&root, &mut run, &mut stream, &mut no_extras(), NONE_FIXED);
    assert_eq!(run.left_recursion, LeftRecursionMode::Off);
    assert_eq!(run.lex_identifier_profile, IdentifierProfile::AsciiCompat);
}

#[test]
fn unknown_mode_names_leave_the_settings() {
    let root = obj(vec![(
        "parser",
        obj(vec![
            ("left_recursion", s("sometimes")),
            ("extensions", obj(vec![("lex", obj(vec![("identifier_profile", s("latin"))]))])),
        ]),
    )]);
    let mut run = run_defaults();
    let mut stream = stream_defaults();
    apply_workspace_config(&root, &mut run, &mut stream, &mut no_extras(), NONE_FIXED);
    assert_eq!(run.left_recursion, LeftRecursionMode::Auto);
    assert_eq!(run.lex_identifier_profile, IdentifierProfile::Unicode);
}

#[test]
fn extras_are_read_from_the_configuration() {
    let root = obj(vec![
        (
            "parser",
            obj(vec![("extensions", obj(vec![("lex", obj(vec![("identifier_locale", s("tr-TR"))]))]))]),
        ),
        ("typecheck", obj(vec![("emit_debug_path", s("out/typeck.json"))])),
        ("effects", obj(vec![("type_row_mode", s("ty-dual-write"))])),
        ("diagnostics", obj(vec![("filter", obj(vec![("min", s("warning"))]))])),
        ("audit", obj(vec![("policy", s("strict"))])),
    ]);
    let mut run = run_defaults();
    let mut stream = stream_defaults();
    let mut extras = no_extras();
    apply_workspace_config(&root, &mut run, &mut stream, &mut extras, NONE_FIXED);
    assert_eq!(extras.row_mode, Some(TypeRowMode::DualWrite));
    assert_eq!(extras.emit_typeck_debug.as_deref(), Some("out/typeck.json"));
    assert_eq!(extras.lex_identifier_locale.as_deref(), Some("tr-TR"));
    assert!(matches!(&extras.diagnostic_filter, Some(JsonValue::Object(o)) if o.len() == 1));
    assert!(matches!(&extras.audit_policy, Some(JsonValue::Str(p)) if p == "strict"));
}

#[test]
fn settings_already_made_are_kept() {
    let root = obj(vec![
        ("typecheck", obj(vec![("emit_typeck_debug", s("config.json"))])),
        ("effects", obj(vec![("type_row_mode", s("ty-integrated"))])),
        ("diagnostics", obj(vec![("filter", s("all"))])),
    ]);
    let mut run = run_defaults();
    let mut stream = stream_defaults();
    let mut extras = no_extras();
    extras.row_mode = Some(TypeRowMode::MetadataOnly);
    extras.emit_typeck_debug = Some("cli.json".to_string());
    extras.diagnostic_filter = Some(s("cli"));
    let fixed = ConfigOverrides { diagnostic_filter: true, ..NONE_FIXED };
    apply_workspace_config(&root, &mut run, &mut stream, &mut extras, fixed);
    assert_eq!(extras.row_mode, Some(TypeRowMode::MetadataOnly));
    assert_eq!(extras.emit_typeck_debug.as_deref(), Some("cli.json"));
    assert!(matches!(&extras.diagnostic_filter, Some(JsonValue::Str(f)) if f == "cli"));
}

#[test]
fn runtime_capabilities_are_listed_once_each() {
    let root = obj(vec![
        (
            "effects",
            obj(vec![(
                "runtime_capabilities",
                JsonValue::Array(vec![
                    s("io"),
                    obj(vec![("id", s("net")), ("stage", s(" beta "))]),
                    s("   "),
                    obj(vec![("stage", s("beta"))]),
                ]),
            )]),
        ),
        (
            "runtime_capabilities",
            JsonValue::Array(vec![obj(vec![("id", s("io")), ("stage", s(""))])]),
        ),
    ]);
    let mut run = run_defaults();
    let mut stream = stream_defaults();
    let mut extras = no_extras();
    apply_workspace_config(&root, &mut run, &mut stream, &mut extras, NONE_FIXED);
    let ids: Vec<(&str, &str)> = extras
        .runtime_capabilities
        .iter()
        .map(|c: &CapabilityEntry| (c.id.as_str(), c.stage.as_str()))
        .collect();
    assert_eq!(ids, vec![("net", "beta"), ("io", "stable")]);
}

#[test]
fn blank_debug_path_is_no_path() {
    let root = obj(vec![("typecheck", obj(vec![("emit_typeck_debug", s("  "))]))]);
    let mut extras = no_extras();
    apply_workspace_config(&root, &mut run_defaults(), &mut stream_defaults(), &mut extras, NONE_FIXED);
    assert_eq!(extras.emit_typeck_debug, None);
}
