use reml_frontend::cli::{
    determine_exit_code, parse_bindgen_version, CliExitStatus, OutputFormat, ReportFormat,
    RuntimeExecutionPlan, StreamSettings,
};
use reml_frontend::cli::{
    derive_context_note, extract_parse_driver_input, parse_on_off, recoverability_label,
    spans_overlap, trace_ids_for_diagnostic, TelemetryKind, TelemetryRequest,
};
use reml_frontend::parser::ast::{Expr, Ident};
use reml_frontend::parser::trace::record_expr_trace_events;
use reml_frontend::span::Span;
use reml_frontend::Recoverability;

#[test]
fn on_off_values() {
    assert_eq!(parse_on_off("on"), Ok(true));
    assert_eq!(parse_on_off(" TRUE "), Ok(true));
    assert_eq!(parse_on_off("1"), Ok(true));
    assert_eq!(parse_on_off("Off"), Ok(false));
    assert_eq!(parse_on_off("false"), Ok(false));
    assert_eq!(parse_on_off("0"), Ok(false));
    assert_eq!(parse_on_off(" Maybe "), Err("値 `maybe` は on/off ではありません".to_string()));
}

#[test]
fn span_overlap_takes_ends_in_order() {
    let s = |a, b| Span { start: a, end: b };
    assert!(spans_overlap(s(0, 5), s(4, 9)));
    assert!(!spans_overlap(s(0, 5), s(5, 9)));
    assert!(spans_overlap(s(5, 0), s(4, 9)));
    assert!(spans_overlap(s(3, 3), s(0, 9)));
    assert!(!spans_overlap(s(9, 9), s(0, 9)));
    assert!(spans_overlap(s(2, 4), s(0, 9)));
    for (a, b) in [(s(0, 5), s(4, 9)), (s(9, 2), s(0, 3)), (s(1, 1), s(1, 2))] {
        assert_eq!(spans_overlap(a, b), spans_overlap(b, a));
        assert_eq!(spans_overlap(a, b), spans_overlap(Span { start: a.end, end: a.start }, b));
    }
}

#[test]
fn trace_ids_of_overlapping_events() {
    let call = Expr::call(
        Expr::identifier(Ident { name: "f".to_string(), span: Span::new(0, 1) }),
        vec![Expr::bool(true, Span::new(2, 6))],
        Span::new(0, 7),
    );
    let mut events = Vec::new();
    record_expr_trace_events(&call, &mut events);
    assert!(trace_ids_for_diagnostic(None, &events).is_empty());
    assert_eq!(
        trace_ids_for_diagnostic(Some(Span::new(3, 4)), &events),
        vec![
            "syntax:expr::call".to_string(),
            "syntax:expr::literal".to_string(),
            "syntax:expr::literal".to_string(),
            "syntax:expr::call".to_string(),
        ]
    );
    assert!(trace_ids_for_diagnostic(Some(Span::new(8, 9)), &events).is_empty());
}

#[test]
fn telemetry_requests() {
    let req = TelemetryRequest::parse("constraint_graph").unwrap();
    assert_eq!(req.kind, TelemetryKind::ConstraintGraph);
    assert_eq!(req.destination, None);
    assert_eq!(req.label(), "constraint_graph");
    let req = TelemetryRequest::parse(" constraint_graph = out/graph.json ").unwrap();
    assert_eq!(req.destination, Some("out/graph.json".to_string()));
    let req = TelemetryRequest::parse("constraint_graph=").unwrap();
    assert_eq!(req.destination, None);
    let err = TelemetryRequest::parse(" =x").unwrap_err();
    assert_eq!(err.0, "--emit-telemetry は <kind>[=<path>] 形式で指定してください");
    let err = TelemetryRequest::parse("heap=x").unwrap_err();
    assert_eq!(err.0, "--emit-telemetry で未知の種別 `heap` が指定されました");
    assert_eq!(TelemetryKind::parse("constraint_graph").unwrap().label(), "constraint_graph");
    assert!(TelemetryKind::parse(" constraint_graph").is_err());
}

#[test]
fn parse_driver_input_is_the_quoted_argument() {
    assert_eq!(extract_parse_driver_input("let x = Parse.run(p, \"1 + 2\")"), "1 + 2");
    assert_eq!(extract_parse_driver_input("1 + 2"), "1 + 2");
    assert_eq!(extract_parse_driver_input("Parse.run(p, \"open"), "Parse.run(p, \"open");
    assert_eq!(extract_parse_driver_input("\"a\" Parse.run(\"é\")"), "é");
}

#[test]
fn context_notes() {
    assert_eq!(
        derive_context_note("1 + ", 4, Some("式")),
        Some("`+` の後に 式 が必要です".to_string())
    );
    assert_eq!(derive_context_note("1 +\t\n", 5, None), Some("`+` の後に 項 が必要です".to_string()));
    assert_eq!(derive_context_note("1 2", 2, Some("演算子")), Some("演算子 が必要です".to_string()));
    assert_eq!(derive_context_note("1 2", 2, None), None);
    assert_eq!(derive_context_note("1 2", 9, Some("x")), None);
    assert_eq!(derive_context_note("é+", 1, Some("x")), None);
    assert_eq!(derive_context_note("é+", 3, None), Some("`+` の後に 項 が必要です".to_string()));
}

#[test]
fn recoverability_labels() {
    assert_eq!(recoverability_label(Recoverability::Recoverable), "recoverable");
    assert_eq!(recoverability_label(Recoverability::Fatal), "fatal");
}

#[test]
fn stream_settings_make_flow_configs() {
    let settings = StreamSettings {
        enabled: true,
        resume_hint: Some("resume".to_string()),
        flow_policy: Some("auto".to_string()),
        flow_max_lag: Some(3),
        demand_min_bytes: Some(16),
        demand_preferred_bytes: None,
        checkpoint: Some("cp".to_string()),
        chunk_size: Some(64),
    };
    let config = settings.to_flow_config(false);
    assert!(config.enabled);
    assert!(!config.packrat_enabled);
    assert_eq!(config.resume_hint.as_deref(), Some("resume"));
    assert_eq!(config.flow_policy.as_deref(), Some("auto"));
    assert_eq!(config.checkpoint.as_deref(), Some("cp"));
    assert_eq!(config.flow_max_lag, Some(3));
    assert_eq!(config.demand_min_bytes, Some(16));
    assert_eq!(config.demand_preferred_bytes, None);
}

#[test]
fn runtime_execution_plans_by_input_path() {
    assert_eq!(
        RuntimeExecutionPlan::from_input(
            "/repo/examples/practical/core_path/security_check/relative_denied.reml"
        ),
        Some(RuntimeExecutionPlan::CorePathRelativeDenied)
    );
    assert_eq!(
        RuntimeExecutionPlan::from_input(
            "examples/practical/core_runtime/capability/stage_mismatch_runtime_bridge.reml"
        ),
        Some(RuntimeExecutionPlan::CoreRuntimeBridgeStageMismatch)
    );
    assert_eq!(
        RuntimeExecutionPlan::from_input("x/examples/practical/core_test/snapshot/basic_ok.reml"),
        Some(RuntimeExecutionPlan::CoreTestSnapshotBasic)
    );
    assert_eq!(
        RuntimeExecutionPlan::from_input("examples/practical/core_test/table/basic_ok.reml"),
        Some(RuntimeExecutionPlan::CoreTestTableBasic)
    );
    assert_eq!(
        RuntimeExecutionPlan::from_input("examples/practical/core_test/fuzz/basic_ok.reml"),
        Some(RuntimeExecutionPlan::CoreTestFuzzBasic)
    );
    assert_eq!(RuntimeExecutionPlan::from_input("examples/hello.reml"), None);
}

#[test]
fn report_and_output_formats() {
    assert_eq!(ReportFormat::parse(" JSON "), Ok(ReportFormat::Json));
    assert_eq!(ReportFormat::parse("human"), Ok(ReportFormat::Human));
    assert_eq!(ReportFormat::parse("TTY"), Ok(ReportFormat::Human));
    assert_eq!(ReportFormat::parse("text"), Ok(ReportFormat::Human));
    assert_eq!(
        ReportFormat::parse(" Yaml "),
        Err("--format に指定した値 `yaml` は human / json のいずれかである必要があります".to_string())
    );
    assert_eq!(OutputFormat::parse("Json"), Ok(OutputFormat::Json));
    assert_eq!(
        OutputFormat::parse(" json"),
        Err("出力形式 ` json` には対応していません（json のみサポート）".to_string())
    );
}

#[test]
fn bindgen_versions() {
    assert_eq!(parse_bindgen_version(""), "unknown");
    assert_eq!(parse_bindgen_version(" \n "), "unknown");
    assert_eq!(parse_bindgen_version("reml-bindgen v0.3.1\n"), "0.3.1");
    assert_eq!(parse_bindgen_version("reml-bindgen version: 1.2"), "1.2");
    assert_eq!(parse_bindgen_version("  no digits here "), "no digits here");
    assert_eq!(parse_bindgen_version("tool v1.0:"), "1.0");
    assert_eq!(parse_bindgen_version("vv2v"), "2");
}

#[test]
fn exit_status_follows_the_worst_severity() {
    let sev = |s: &str| Some(s.to_string());
    assert_eq!(determine_exit_code(&Vec::new()), CliExitStatus::Success);
    assert_eq!(determine_exit_code(&vec![sev("info"), None, sev("hint")]), CliExitStatus::Success);
    assert_eq!(determine_exit_code(&vec![sev("info"), sev("warning")]), CliExitStatus::Warning);
    assert_eq!(
        determine_exit_code(&vec![sev("warning"), sev("error"), sev("info")]),
        CliExitStatus::Failure
    );
    assert_eq!(determine_exit_code(&vec![sev("Error")]), CliExitStatus::Success);
}

#[test]
fn exit_status_does_not_depend_on_order() {
    let sev = |s: &str| Some(s.to_string());
    let list = vec![sev("warning"), None, sev("error"), sev("info")];
    let mut reversed = list.clone();
    reversed.reverse();
    assert_eq!(determine_exit_code(&list), determine_exit_code(&reversed));
    assert_eq!(determine_exit_code(&reversed), CliExitStatus::Failure);
}
