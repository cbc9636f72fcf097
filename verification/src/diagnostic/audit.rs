//! The audit metadata recorded with each diagnostic: who produced it, when,
//! and under which parser and stream settings.

use crate::cli::{opt_string_view, StreamSettings};
use crate::streaming::flow::{StreamFlowConfig, StreamFlowState};
use crate::value::{entries_model, json_model, push_entry, JsonModel, JsonValue};
use crate::workspace::{left_recursion_label, left_recursion_name, RunSettings};
use crate::text::string_of;
use vstd::prelude::*;

verus! {

/// What the audit metadata of a diagnostic is made from.
pub struct AuditInputs {
    pub timestamp: String,
    pub domain: String,
    pub run: RunSettings,
    pub stream: StreamSettings,
    pub flow: StreamFlowState,
}

pub open spec fn text_or(o: Option<Seq<char>>, default: Seq<char>) -> Seq<char> {
    match o {
        Some(t) => t,
        None => default,
    }
}

pub open spec fn number_or_zero(o: Option<u64>) -> u64 {
    match o {
        Some(n) => n,
        None => 0,
    }
}

/// The entries that name the event, the parser and the audit policy.
pub open spec fn identity_entries(domain: Seq<char>, timestamp: Seq<char>) -> Seq<(Seq<char>, JsonModel)> {
    seq![
        ("event.domain"@, JsonModel::Str(domain)),
        ("event.kind"@, JsonModel::Str("diagnostic"@)),
        ("schema.version"@, JsonModel::Str("3.0.0-alpha"@)),
        ("parser.core.rule.namespace"@, JsonModel::Str("rust.frontend"@)),
        ("parser.core.rule.name"@, JsonModel::Str("compilation_unit"@)),
        ("parser.core.rule.ordinal"@, JsonModel::UInt(0)),
        ("parser.core.rule.origin"@, JsonModel::Str("reml_frontend"@)),
        ("parser.core.rule.fingerprint"@, JsonModel::Str("rust-frontend-0001"@)),
        ("namespace"@, JsonModel::Str("rust.frontend"@)),
        ("name"@, JsonModel::Str("compilation_unit"@)),
        ("origin"@, JsonModel::Str("reml_frontend"@)),
        ("fingerprint"@, JsonModel::Str("rust-frontend-0001"@)),
        ("audit.policy.version"@, JsonModel::Str("rust.poc.audit.v1"@)),
        ("audit.channel"@, JsonModel::Str("cli"@)),
        ("audit.timestamp"@, JsonModel::Str(timestamp)),
    ]
}

/// The entries of the parser switches.
pub open spec fn switch_entries(run: RunSettings) -> Seq<(Seq<char>, JsonModel)> {
    seq![
        ("parser.runconfig.switches.packrat"@, JsonModel::Bool(run.packrat)),
        (
            "parser.runconfig.switches.left_recursion"@,
            JsonModel::Str(left_recursion_name(run.left_recursion)),
        ),
        ("parser.runconfig.switches.trace"@, JsonModel::Bool(run.trace)),
        ("parser.runconfig.switches.merge_warnings"@, JsonModel::Bool(run.merge_warnings)),
        (
            "parser.runconfig.switches.allow_top_level_expr"@,
            JsonModel::Bool(run.allow_top_level_expr),
        ),
        (
            "parser.runconfig.switches.ack_experimental_diagnostics"@,
            JsonModel::Bool(run.ack_experimental_diagnostics),
        ),
        ("parser.runconfig.switches.require_eof"@, JsonModel::Bool(run.require_eof)),
        ("parser.runconfig.switches.legacy_result"@, JsonModel::Bool(run.legacy_result)),
        (
            "parser.runconfig.switches.experimental_effects"@,
            JsonModel::Bool(run.experimental_effects),
        ),
    ]
}

/// The entries of the stream settings and of the stream runtime's state:
/// unset settings read as `unspecified`, `auto` or 0, and the runtime's
/// resume hint is recorded when it has one.
pub open spec fn stream_entries(
    stream: StreamSettings,
    flow: StreamFlowConfig,
    checkpoints_closed: u32,
) -> Seq<(Seq<char>, JsonModel)> {
    seq![
        ("parser.runconfig.extensions.stream.enabled"@, JsonModel::Bool(stream.enabled)),
        (
            "parser.stream.resume_hint"@,
            JsonModel::Str(text_or(opt_string_view(stream.resume_hint), "unspecified"@)),
        ),
        (
            "parser.stream.demand_min_bytes"@,
            JsonModel::UInt(number_or_zero(stream.demand_min_bytes)),
        ),
        (
            "parser.stream.demand_preferred_bytes"@,
            JsonModel::UInt(number_or_zero(stream.demand_preferred_bytes)),
        ),
        (
            "parser.stream.flow_policy"@,
            JsonModel::Str(text_or(opt_string_view(stream.flow_policy), "auto"@)),
        ),
        ("parser.stream.flow_max_lag"@, JsonModel::UInt(number_or_zero(stream.flow_max_lag))),
        (
            "parser.stream.checkpoint"@,
            JsonModel::Str(text_or(opt_string_view(stream.checkpoint), "unspecified"@)),
        ),
        ("parser.stream.packrat_enabled"@, JsonModel::Bool(flow.packrat_enabled)),
        ("parser.stream.flow.checkpoints_closed"@, JsonModel::UInt(checkpoints_closed as u64)),
        ("parser.stream.flow.enabled"@, JsonModel::Bool(flow.enabled)),
    ] + match flow.resume_hint {
        Some(h) => seq![("parser.stream.flow.resume_source"@, JsonModel::Str(h@))],
        None => Seq::empty(),
    }
}

/// The audit metadata of a diagnostic, entry by entry in order.
pub open spec fn audit_metadata_spec(i: AuditInputs) -> Seq<(Seq<char>, JsonModel)> {
    identity_entries(i.domain@, i.timestamp@) + switch_entries(i.run) + stream_entries(
        i.stream,
        i.flow.spec_config(),
        i.flow.spec_checkpoints_closed(),
    )
}

fn str_value(s: &str) -> (v: JsonValue)
    ensures
        json_model(v) == JsonModel::Str(s@),
{
    JsonValue::Str(string_of(s))
}

fn text_or_value(o: &Option<String>, default: &str) -> (v: JsonValue)
    ensures
        json_model(v) == JsonModel::Str(text_or(opt_string_view(*o), default@)),
{
    match o {
        Some(t) => str_value(t.as_str()),
        None => str_value(default),
    }
}

fn number_or_zero_value(o: Option<u64>) -> (v: JsonValue)
    ensures
        json_model(v) == JsonModel::UInt(number_or_zero(o)),
{
    match o {
        Some(n) => JsonValue::UInt(n),
        None => JsonValue::UInt(0),
    }
}

fn push_identity(m: &mut Vec<(String, JsonValue)>, domain: &str, timestamp: &str)
    ensures
        entries_model(final(m)@) == entries_model(old(m)@) + identity_entries(domain@, timestamp@),
{
    let ghost start = entries_model(m@);
    push_entry(m, "event.domain", str_value(domain));
    push_entry(m, "event.kind", str_value("diagnostic"));
    push_entry(m, "schema.version", str_value("3.0.0-alpha"));
    push_entry(m, "parser.core.rule.namespace", str_value("rust.frontend"));
    push_entry(m, "parser.core.rule.name", str_value("compilation_unit"));
    push_entry(m, "parser.core.rule.ordinal", JsonValue::UInt(0));
    push_entry(m, "parser.core.rule.origin", str_value("reml_frontend"));
    push_entry(m, "parser.core.rule.fingerprint", str_value("rust-frontend-0001"));
    push_entry(m, "namespace", str_value("rust.frontend"));
    push_entry(m, "name", str_value("compilation_unit"));
    push_entry(m, "origin", str_value("reml_frontend"));
    push_entry(m, "fingerprint", str_value("rust-frontend-0001"));
    push_entry(m, "audit.policy.version", str_value("rust.poc.audit.v1"));
    push_entry(m, "audit.channel", str_value("cli"));
    push_entry(m, "audit.timestamp", str_value(timestamp));
    assert(entries_model(m@) =~= start + identity_entries(domain@, timestamp@));
}

#[verifier::rlimit(50)]
fn push_switches(m: &mut Vec<(String, JsonValue)>, run: &RunSettings)
    ensures
        entries_model(final(m)@) == entries_model(old(m)@) + switch_entries(*run),
{
    let ghost start = entries_model(m@);
    push_entry(m, "parser.runconfig.switches.packrat", JsonValue::Bool(run.packrat));
    push_entry(
        m,
        "parser.runconfig.switches.left_recursion",
        str_value(left_recursion_label(run.left_recursion)),
    );
    push_entry(m, "parser.runconfig.switches.trace", JsonValue::Bool(run.trace));
    push_entry(m, "parser.runconfig.switches.merge_warnings", JsonValue::Bool(run.merge_warnings));
    push_entry(
        m,
        "parser.runconfig.switches.allow_top_level_expr",
        JsonValue::Bool(run.allow_top_level_expr),
    );
    push_entry(
        m,
        "parser.runconfig.switches.ack_experimental_diagnostics",
        JsonValue::Bool(run.ack_experimental_diagnostics),
    );
    push_entry(m, "parser.runconfig.switches.require_eof", JsonValue::Bool(run.require_eof));
    push_entry(m, "parser.runconfig.switches.legacy_result", JsonValue::Bool(run.legacy_result));
    push_entry(
        m,
        "parser.runconfig.switches.experimental_effects",
        JsonValue::Bool(run.experimental_effects),
    );
    assert(entries_model(m@) =~= start + switch_entries(*run));
}

fn push_stream(m: &mut Vec<(String, JsonValue)>, stream: &StreamSettings, flow: &StreamFlowState)
    ensures
        entries_model(final(m)@) == entries_model(old(m)@) + stream_entries(
            *stream,
            flow.spec_config(),
            flow.spec_checkpoints_closed(),
        ),
{
    let ghost start = entries_model(m@);
    let config = match flow.config() {
        Some(c) => c,
        None => {
            return;
        },
    };
    let closed = flow.metrics().checkpoints_closed;
    push_entry(m, "parser.runconfig.extensions.stream.enabled", JsonValue::Bool(stream.enabled));
    push_entry(m, "parser.stream.resume_hint", text_or_value(&stream.resume_hint, "unspecified"));
    push_entry(m, "parser.stream.demand_min_bytes", number_or_zero_value(stream.demand_min_bytes));
    push_entry(
        m,
        "parser.stream.demand_preferred_bytes",
        number_or_zero_value(stream.demand_preferred_bytes),
    );
    push_entry(m, "parser.stream.flow_policy", text_or_value(&stream.flow_policy, "auto"));
    push_entry(m, "parser.stream.flow_max_lag", number_or_zero_value(stream.flow_max_lag));
    push_entry(m, "parser.stream.checkpoint", text_or_value(&stream.checkpoint, "unspecified"));
    push_entry(m, "parser.stream.packrat_enabled", JsonValue::Bool(config.packrat_enabled));
    push_entry(m, "parser.stream.flow.checkpoints_closed", JsonValue::UInt(closed as u64));
    push_entry(m, "parser.stream.flow.enabled", JsonValue::Bool(config.enabled));
    let ghost mid = entries_model(m@);
    match &config.resume_hint {
        Some(h) => {
            push_entry(m, "parser.stream.flow.resume_source", str_value(h.as_str()));
        },
        None => {},
    }
    assert(entries_model(m@) =~= start + stream_entries(
        *stream,
        flow.spec_config(),
        flow.spec_checkpoints_closed(),
    ));
}

/// The audit metadata of a diagnostic; see `audit_metadata_spec`.
pub fn build_audit_metadata(i: &AuditInputs) -> (m: Vec<(String, JsonValue)>)
    ensures
        entries_model(m@) == audit_metadata_spec(*i),
{
    let mut m: Vec<(String, JsonValue)> = Vec::new();
    assert(entries_model(m@) =~= Seq::<(Seq<char>, JsonModel)>::empty());
    push_identity(&mut m, i.domain.as_str(), i.timestamp.as_str());
    push_switches(&mut m, &i.run);
    push_stream(&mut m, &i.stream, &i.flow);
    assert(entries_model(m@) =~= audit_metadata_spec(*i));
    m
}

} // verus!
