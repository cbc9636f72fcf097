//! Decisions of the command-line front end that do not touch the outside
//! world: option values, telemetry requests, the text that the parse-driver
//! mode reads, the context notes of its diagnostics, and which trace events
//! a diagnostic points at.

use crate::error::Recoverability;
use crate::parser::trace::{
    event_view, events_view, smol_str_to_string, ParserTraceEvent, TraceEventView,
};
use crate::span::Span;
use crate::streaming::StreamFlowConfig;
use crate::text::{
    append_str, ascii_lowercase, ascii_lowercase_str, byte_offset, char_width, chars_of, contains,
    contains_str, find_chars, find_from, is_whitespace, is_whitespace_exec, lemma_byte_offset_step,
    str_eq, string_of, string_of_range, trim, trim_end, trim_start, trim_str,
};
use vstd::prelude::*;

verus! {

broadcast use vstd::std_specs::vec::group_vec_axioms;

// ---------------------------------------------------------------------------
// on/off values

/// The switch that an option value names: `on`, `true` or `1` turn it on,
/// `off`, `false` or `0` turn it off, in any ASCII case and with
/// surrounding whitespace; other values name none.
pub open spec fn on_off_value(s: Seq<char>) -> Option<bool> {
    let v = ascii_lowercase(trim(s));
    if v == "on"@ || v == "true"@ || v == "1"@ {
        Some(true)
    } else if v == "off"@ || v == "false"@ || v == "0"@ {
        Some(false)
    } else {
        None
    }
}

/// Reads an on/off option value.
pub fn parse_on_off(value: &str) -> (r: Result<bool, String>)
    ensures
        r is Ok <==> on_off_value(value@) is Some,
        r matches Ok(b) ==> on_off_value(value@) == Some(b),
        r matches Err(m) ==> m@ == "値 `"@ + ascii_lowercase(trim(value@)) + "` は on/off ではありません"@,
{
    let trimmed = trim_str(value);
    let v = ascii_lowercase_str(trimmed.as_str());
    let s = v.as_str();
    if str_eq(s, "on") || str_eq(s, "true") || str_eq(s, "1") {
        Ok(true)
    } else if str_eq(s, "off") || str_eq(s, "false") || str_eq(s, "0") {
        Ok(false)
    } else {
        let mut m = string_of("値 `");
        append_str(&mut m, s);
        append_str(&mut m, "` は on/off ではありません");
        Err(m)
    }
}

// ---------------------------------------------------------------------------
// Spans and trace events

pub open spec fn span_low(s: Span) -> u32 {
    if s.start <= s.end {
        s.start
    } else {
        s.end
    }
}

pub open spec fn span_high(s: Span) -> u32 {
    if s.start <= s.end {
        s.end
    } else {
        s.start
    }
}

/// Two spans, each taken with its ends in order, share at least one byte.
pub open spec fn spec_spans_overlap(left: Span, right: Span) -> bool {
    span_low(left) < span_high(right) && span_low(right) < span_high(left)
}

/// Overlap does not depend on the order of the two spans, nor on the order
/// in which each span's ends are given.
pub proof fn lemma_spans_overlap_symmetric(left: Span, right: Span)
    ensures
        spec_spans_overlap(left, right) == spec_spans_overlap(right, left),
        spec_spans_overlap(left, right) == spec_spans_overlap(
            Span { start: left.end, end: left.start },
            right,
        ),
{
}

/// Whether two spans share at least one byte; a span given backwards is
/// taken with its ends swapped.
pub fn spans_overlap(left: Span, right: Span) -> (b: bool)
    ensures
        b == spec_spans_overlap(left, right),
{
    let left_start = if left.start <= left.end {
        left.start
    } else {
        left.end
    };
    let left_end = if left.end >= left.start {
        left.end
    } else {
        left.start
    };
    let right_start = if right.start <= right.end {
        right.start
    } else {
        right.end
    };
    let right_end = if right.end >= right.start {
        right.end
    } else {
        right.start
    };
    left_start < right_end && right_start < left_end
}

/// The trace ids of the events whose spans overlap `span`, in order.
pub open spec fn overlapping_trace_ids(events: Seq<TraceEventView>, span: Span) -> Seq<Seq<char>>
    decreases events.len(),
{
    if events.len() == 0 {
        Seq::empty()
    } else {
        overlapping_trace_ids(events.drop_last(), span) + if spec_spans_overlap(
            events.last().span,
            span,
        ) {
            seq![events.last().trace_id]
        } else {
            Seq::empty()
        }
    }
}

/// The trace ids of the events that overlap a diagnostic's primary span;
/// none when the diagnostic has no primary span.
pub fn trace_ids_for_diagnostic(primary_span: Option<Span>, trace_events: &Vec<ParserTraceEvent>) -> (r:
    Vec<String>)
    ensures
        primary_span is None ==> r@.len() == 0,
        primary_span matches Some(span) ==> r@.map_values(|s: String| s@) == overlapping_trace_ids(
            events_view(trace_events@),
            span,
        ),
{
    let span = match primary_span {
        Some(span) => span,
        None => return Vec::new(),
    };
    let mut r: Vec<String> = Vec::new();
    let mut i: usize = 0;
    while i < trace_events.len()
        invariant
            i <= trace_events.len(),
            r@.map_values(|s: String| s@) =~= overlapping_trace_ids(
                events_view(trace_events@.take(i as int)),
                span,
            ),
        decreases trace_events.len() - i,
    {
        let event = &trace_events[i];
        let ghost prev = r@;
        proof {
            assert(events_view(trace_events@.take(i + 1)).drop_last() =~= events_view(
                trace_events@.take(i as int),
            ));
            assert(events_view(trace_events@.take(i + 1)).last() == event_view(*event));
        }
        if spans_overlap(event.span, span) {
            let id = smol_str_to_string(&event.trace_id);
            r.push(id);
            assert(r@.map_values(|s: String| s@) =~= prev.map_values(|s: String| s@).push(id@));
        }
        i += 1;
    }
    assert(trace_events@.take(trace_events.len() as int) =~= trace_events@);
    r
}

/// The label of a recoverability class.
pub fn recoverability_label(value: Recoverability) -> (s: &'static str)
    ensures
        value is Recoverable ==> s@ == "recoverable"@,
        value is Fatal ==> s@ == "fatal"@,
{
    match value {
        Recoverability::Recoverable => "recoverable",
        Recoverability::Fatal => "fatal",
    }
}

// ---------------------------------------------------------------------------
// Telemetry requests

/// The kinds of telemetry that the front end can write.
#[derive(Debug, Clone, Copy, PartialEq, Eq, Structural)]
pub enum TelemetryKind {
    ConstraintGraph,
}

/// Why a telemetry request was refused, as a message for the user.
#[derive(Debug)]
pub struct TelemetryParseError(pub String);

impl TelemetryKind {
    /// Reads a telemetry kind by its exact name.
    pub fn parse(raw: &str) -> (r: Result<TelemetryKind, TelemetryParseError>)
        ensures
            r is Ok <==> raw@ == "constraint_graph"@,
            r matches Ok(k) ==> k == TelemetryKind::ConstraintGraph,
            r matches Err(e) ==> e.0@ == "--emit-telemetry で未知の種別 `"@ + raw@
                + "` が指定されました"@,
    {
        if str_eq(raw, "constraint_graph") {
            Ok(TelemetryKind::ConstraintGraph)
        } else {
            let mut m = string_of("--emit-telemetry で未知の種別 `");
            append_str(&mut m, raw);
            append_str(&mut m, "` が指定されました");
            Err(TelemetryParseError(m))
        }
    }

    /// The kind's name.
    pub fn label(&self) -> (s: &'static str)
        ensures
            s@ == "constraint_graph"@,
    {
        match self {
            TelemetryKind::ConstraintGraph => "constraint_graph",
        }
    }
}

/// A request for telemetry: its kind and, when given, where to write it.
#[derive(Debug)]
pub struct TelemetryRequest {
    pub kind: TelemetryKind,
    pub destination: Option<String>,
}

/// The position of the first `c` in `s` at or after `i`.
pub open spec fn index_of_from(s: Seq<char>, c: char, i: int) -> Option<int>
    decreases s.len() - i,
{
    if i < 0 || i >= s.len() {
        None
    } else if s[i] == c {
        Some(i)
    } else {
        index_of_from(s, c, i + 1)
    }
}

fn index_of_from_exec(cs: &Vec<char>, c: char, from: usize) -> (r: Option<usize>)
    ensures
        r matches Some(i) ==> index_of_from(cs@, c, from as int) == Some(i as int),
        r is None ==> index_of_from(cs@, c, from as int) is None,
{
    let mut i = from;
    while i < cs.len()
        invariant
            from <= i,
            index_of_from(cs@, c, i as int) == index_of_from(cs@, c, from as int),
        decreases cs.len() - i,
    {
        if cs[i] == c {
            return Some(i);
        }
        i += 1;
    }
    None
}

/// The kind text of a request: what comes before the first `=` (the whole
/// value when there is none), trimmed.
pub open spec fn request_kind_text(s: Seq<char>) -> Seq<char> {
    match index_of_from(s, '=', 0) {
        Some(i) => trim(s.take(i)),
        None => trim(s),
    }
}

/// The destination of a request: what comes after the first `=`, trimmed,
/// when that is not empty.
pub open spec fn request_destination(s: Seq<char>) -> Option<Seq<char>> {
    match index_of_from(s, '=', 0) {
        Some(i) => if trim(s.skip(i + 1)).len() > 0 {
            Some(trim(s.skip(i + 1)))
        } else {
            None
        },
        None => None,
    }
}

impl TelemetryRequest {
    /// Reads `<kind>[=<path>]`.
    pub fn parse(value: &str) -> (r: Result<TelemetryRequest, TelemetryParseError>)
        ensures
            r is Ok <==> request_kind_text(value@) == "constraint_graph"@,
            r matches Ok(req) ==> req.kind == TelemetryKind::ConstraintGraph && (match req.destination {
                Some(d) => request_destination(value@) == Some(d@),
                None => request_destination(value@) is None,
            }),
            r matches Err(e) ==> (if request_kind_text(value@).len() == 0 {
                e.0@ == "--emit-telemetry は <kind>[=<path>] 形式で指定してください"@
            } else {
                e.0@ == "--emit-telemetry で未知の種別 `"@ + request_kind_text(value@)
                    + "` が指定されました"@
            }),
    {
        let cs = chars_of(value);
        let eq = index_of_from_exec(&cs, '=', 0);
        let (kind_raw, destination) = match eq {
            Some(i) => {
                proof {
                    lemma_index_of_from_bounds(cs@, '=', 0);
                }
                let before = string_of_range(&cs, 0, i);
                let after = string_of_range(&cs, i + 1, cs.len());
                assert(cs@.subrange(0, i as int) =~= value@.take(i as int));
                assert(cs@.subrange(i + 1, cs.len() as int) =~= value@.skip(i + 1));
                let dest = trim_str(after.as_str());
                let destination = if dest.as_str().is_empty() {
                    None
                } else {
                    Some(dest)
                };
                (trim_str(before.as_str()), destination)
            },
            None => (trim_str(value), None),
        };
        if kind_raw.as_str().is_empty() {
            proof {
                reveal_strlit("constraint_graph");
            }
            return Err(
                TelemetryParseError(
                    string_of("--emit-telemetry は <kind>[=<path>] 形式で指定してください"),
                ),
            );
        }
        match TelemetryKind::parse(kind_raw.as_str()) {
            Ok(kind) => Ok(TelemetryRequest { kind, destination }),
            Err(e) => Err(e),
        }
    }

    /// The name of the requested kind.
    pub fn label(&self) -> (s: &'static str)
        ensures
            s@ == "constraint_graph"@,
    {
        self.kind.label()
    }
}

// ---------------------------------------------------------------------------
// The parse-driver input

/// The text that the parse-driver mode reads from a source: the first
/// double-quoted text that follows `Parse.run(`, or the whole source when
/// there is none.
pub open spec fn parse_driver_input(cs: Seq<char>) -> Seq<char> {
    match find_from(cs, "Parse.run("@, 0) {
        Some(run_pos) => match index_of_from(cs, '"', run_pos) {
            Some(open) => match index_of_from(cs, '"', open + 1) {
                Some(close) => cs.subrange(open + 1, close),
                None => cs,
            },
            None => cs,
        },
        None => cs,
    }
}

proof fn lemma_index_of_from_bounds(s: Seq<char>, c: char, i: int)
    ensures
        index_of_from(s, c, i) matches Some(j) ==> i <= j < s.len() && s[j] == c,
    decreases s.len() - i,
{
    if 0 <= i < s.len() && s[i] != c {
        lemma_index_of_from_bounds(s, c, i + 1);
    }
}

/// Extracts the text that the parse-driver mode reads.
pub fn extract_parse_driver_input(source: &str) -> (r: String)
    ensures
        r@ == parse_driver_input(source@),
{
    let cs = chars_of(source);
    let pattern = chars_of("Parse.run(");
    if let Some(run_pos) = find_chars(&cs, &pattern) {
        if let Some(open) = index_of_from_exec(&cs, '"', run_pos) {
            proof {
                lemma_index_of_from_bounds(cs@, '"', run_pos as int);
            }
            if let Some(close) = index_of_from_exec(&cs, '"', open + 1) {
                proof {
                    lemma_index_of_from_bounds(cs@, '"', open + 1);
                }
                return string_of_range(&cs, open + 1, close);
            }
        }
    }
    string_of(source)
}

// ---------------------------------------------------------------------------
// Context notes

/// The characters before byte `b` of the UTF-8 encoding of `cs`, when `b`
/// falls on a character boundary within it.
pub open spec fn prefix_at_byte(cs: Seq<char>, b: int) -> Option<Seq<char>> {
    if exists|k: int| 0 <= k <= cs.len() && byte_offset(cs, k) == b {
        Some(cs.take(choose|k: int| 0 <= k <= cs.len() && byte_offset(cs, k) == b))
    } else {
        None
    }
}

/// The note for a parse error at byte `error_byte`: after a trailing `+`,
/// what must follow it (the rule's label, or `項`); otherwise the rule's
/// label when there is one. No note when the byte is not a character
/// boundary of the source.
pub open spec fn context_note(source: Seq<char>, error_byte: int, label: Option<Seq<char>>) -> Option<
    Seq<char>,
> {
    match prefix_at_byte(source, error_byte) {
        None => None,
        Some(prefix) => {
            let t = trim_end(prefix);
            if t.len() > 0 && t.last() == '+' {
                Some(
                    "`+` の後に "@ + match label {
                        Some(l) => l,
                        None => "項"@,
                    } + " が必要です"@,
                )
            } else {
                match label {
                    Some(rule) => Some(rule + " が必要です"@),
                    None => None,
                }
            }
        },
    }
}

proof fn lemma_byte_offset_strict(cs: Seq<char>, i: int, j: int)
    requires
        0 <= i < j <= cs.len(),
    ensures
        byte_offset(cs, i) < byte_offset(cs, j),
    decreases j - i,
{
    lemma_byte_offset_step(cs, i);
    if i + 1 < j {
        lemma_byte_offset_strict(cs, i + 1, j);
    }
}

/// Finds the character index whose byte offset is `b`, if any.
fn char_index_at_byte(cs: &Vec<char>, b: usize) -> (r: Option<usize>)
    ensures
        r matches Some(k) ==> k <= cs.len() && byte_offset(cs@, k as int) == b,
        r is None ==> !exists|k: int| 0 <= k <= cs.len() && byte_offset(cs@, k) == b,
{
    let mut k: usize = 0;
    let mut off: u128 = 0;
    assert(cs@.take(0) =~= Seq::<char>::empty());
    while k < cs.len() && off < b as u128
        invariant
            k <= cs.len(),
            off == byte_offset(cs@, k as int),
            forall|j: int| 0 <= j < k ==> byte_offset(cs@, j) < b,
        decreases cs.len() - k,
    {
        proof {
            lemma_byte_offset_step(cs@, k as int);
        }
        off = off + char_width(cs[k]) as u128;
        k += 1;
    }
    if off == b as u128 {
        Some(k)
    } else {
        proof {
            assert forall|j: int| 0 <= j <= cs.len() implies byte_offset(cs@, j) != b by {
                if j > k {
                    lemma_byte_offset_strict(cs@, k as int, j);
                }
            }
        }
        None
    }
}

/// The note that explains what a parse error at `error_byte` expected.
pub fn derive_context_note(source: &str, error_byte: usize, label: Option<&str>) -> (r: Option<
    String,
>)
    ensures
        r matches Some(n) ==> context_note(source@, error_byte as int, match label {
            Some(l) => Some(l@),
            None => None,
        }) == Some(n@),
        r is None ==> context_note(source@, error_byte as int, match label {
            Some(l) => Some(l@),
            None => None,
        }) is None,
{
    let cs = chars_of(source);
    let k = match char_index_at_byte(&cs, error_byte) {
        Some(k) => k,
        None => return None,
    };
    proof {
        let c = choose|m: int| 0 <= m <= cs@.len() && byte_offset(cs@, m) == error_byte;
        if c < k {
            lemma_byte_offset_strict(cs@, c, k as int);
        } else if c > k {
            lemma_byte_offset_strict(cs@, k as int, c);
        }
        assert(c == k);
    }
    let mut j = k;
    while j > 0 && is_whitespace_exec(cs[j - 1])
        invariant
            j <= k <= cs.len(),
            trim_end(cs@.take(j as int)) == trim_end(cs@.take(k as int)),
        decreases j,
    {
        assert(cs@.take(j as int).drop_last() =~= cs@.take(j - 1));
        j -= 1;
    }
    assert(trim_end(cs@.take(j as int)) == cs@.take(j as int));
    if j > 0 && cs[j - 1] == '+' {
        let mut m = string_of("`+` の後に ");
        match label {
            Some(l) => append_str(&mut m, l),
            None => append_str(&mut m, "項"),
        }
        append_str(&mut m, " が必要です");
        return Some(m);
    }
    match label {
        Some(rule) => {
            let mut m = string_of(rule);
            append_str(&mut m, " が必要です");
            Some(m)
        },
        None => None,
    }
}

// ---------------------------------------------------------------------------
// Stream settings

/// The streaming options given on the command line.
#[derive(Debug, Clone)]
pub struct StreamSettings {
    pub enabled: bool,
    pub resume_hint: Option<String>,
    pub flow_policy: Option<String>,
    pub flow_max_lag: Option<u64>,
    pub demand_min_bytes: Option<u64>,
    pub demand_preferred_bytes: Option<u64>,
    pub checkpoint: Option<String>,
    pub chunk_size: Option<u64>,
}

pub open spec fn opt_string_view(o: Option<String>) -> Option<Seq<char>> {
    match o {
        Some(s) => Some(s@),
        None => None,
    }
}

fn clone_opt_string(o: &Option<String>) -> (r: Option<String>)
    ensures
        opt_string_view(r) == opt_string_view(*o),
{
    match o {
        Some(s) => Some(s.clone()),
        None => None,
    }
}

impl StreamSettings {
    /// The stream runtime's configuration for these options.
    pub fn to_flow_config(&self, packrat_enabled: bool) -> (c: StreamFlowConfig)
        ensures
            c.enabled == self.enabled,
            c.packrat_enabled == packrat_enabled,
            opt_string_view(c.resume_hint) == opt_string_view(self.resume_hint),
            opt_string_view(c.checkpoint) == opt_string_view(self.checkpoint),
            opt_string_view(c.flow_policy) == opt_string_view(self.flow_policy),
            c.flow_max_lag == self.flow_max_lag,
            c.demand_min_bytes == self.demand_min_bytes,
            c.demand_preferred_bytes == self.demand_preferred_bytes,
    {
        StreamFlowConfig {
            enabled: self.enabled,
            packrat_enabled,
            resume_hint: clone_opt_string(&self.resume_hint),
            checkpoint: clone_opt_string(&self.checkpoint),
            flow_policy: clone_opt_string(&self.flow_policy),
            flow_max_lag: self.flow_max_lag,
            demand_min_bytes: self.demand_min_bytes,
            demand_preferred_bytes: self.demand_preferred_bytes,
        }
    }
}

// ---------------------------------------------------------------------------
// Runtime execution plans

/// The example programs whose runtime phase the front end runs itself.
#[derive(Debug, Clone, Copy, PartialEq, Eq, Structural)]
pub enum RuntimeExecutionPlan {
    CorePathRelativeDenied,
    CoreRuntimeBridgeStageMismatch,
    CoreTestSnapshotBasic,
    CoreTestTableBasic,
    CoreTestFuzzBasic,
}

/// The plan for an input path: the first example whose path the input's
/// path contains.
pub open spec fn execution_plan_for(label: Seq<char>) -> Option<RuntimeExecutionPlan> {
    if contains(label, "examples/practical/core_path/security_check/relative_denied.reml"@) {
        Some(RuntimeExecutionPlan::CorePathRelativeDenied)
    } else if contains(
        label,
        "examples/practical/core_runtime/capability/stage_mismatch_runtime_bridge.reml"@,
    ) {
        Some(RuntimeExecutionPlan::CoreRuntimeBridgeStageMismatch)
    } else if contains(label, "examples/practical/core_test/snapshot/basic_ok.reml"@) {
        Some(RuntimeExecutionPlan::CoreTestSnapshotBasic)
    } else if contains(label, "examples/practical/core_test/table/basic_ok.reml"@) {
        Some(RuntimeExecutionPlan::CoreTestTableBasic)
    } else if contains(label, "examples/practical/core_test/fuzz/basic_ok.reml"@) {
        Some(RuntimeExecutionPlan::CoreTestFuzzBasic)
    } else {
        None
    }
}

impl RuntimeExecutionPlan {
    /// The plan for an input, given its path as text.
    pub fn from_input(input: &str) -> (r: Option<RuntimeExecutionPlan>)
        ensures
            r == execution_plan_for(input@),
    {
        if contains_str(input, "examples/practical/core_path/security_check/relative_denied.reml") {
            Some(RuntimeExecutionPlan::CorePathRelativeDenied)
        } else if contains_str(
            input,
            "examples/practical/core_runtime/capability/stage_mismatch_runtime_bridge.reml",
        ) {
            Some(RuntimeExecutionPlan::CoreRuntimeBridgeStageMismatch)
        } else if contains_str(input, "examples/practical/core_test/snapshot/basic_ok.reml") {
            Some(RuntimeExecutionPlan::CoreTestSnapshotBasic)
        } else if contains_str(input, "examples/practical/core_test/table/basic_ok.reml") {
            Some(RuntimeExecutionPlan::CoreTestTableBasic)
        } else if contains_str(input, "examples/practical/core_test/fuzz/basic_ok.reml") {
            Some(RuntimeExecutionPlan::CoreTestFuzzBasic)
        } else {
            None
        }
    }
}

// ---------------------------------------------------------------------------
// Report formats

/// How reports are printed.
#[derive(Debug, Clone, Copy, PartialEq, Eq, Structural)]
pub enum ReportFormat {
    Json,
    Human,
}

/// The report format that a `--format` value names: `json`, or `human`,
/// `tty` or `text`, in any ASCII case and with surrounding whitespace.
pub open spec fn report_format_value(raw: Seq<char>) -> Option<ReportFormat> {
    let v = ascii_lowercase(trim(raw));
    if v == "json"@ {
        Some(ReportFormat::Json)
    } else if v == "human"@ || v == "tty"@ || v == "text"@ {
        Some(ReportFormat::Human)
    } else {
        None
    }
}

impl ReportFormat {
    /// Reads `--format`; other values than the formats' names are refused
    /// with a usage message.
    pub fn parse(raw: &str) -> (r: Result<ReportFormat, String>)
        ensures
            r matches Ok(f) ==> report_format_value(raw@) == Some(f),
            r is Err ==> report_format_value(raw@) is None,
            r matches Err(m) ==> m@ == "--format に指定した値 `"@ + ascii_lowercase(trim(raw@))
                + "` は human / json のいずれかである必要があります"@,
    {
        let trimmed = trim_str(raw);
        let v = ascii_lowercase_str(trimmed.as_str());
        let s = v.as_str();
        if str_eq(s, "json") {
            Ok(ReportFormat::Json)
        } else if str_eq(s, "human") || str_eq(s, "tty") || str_eq(s, "text") {
            Ok(ReportFormat::Human)
        } else {
            let mut m = string_of("--format に指定した値 `");
            append_str(&mut m, s);
            append_str(&mut m, "` は human / json のいずれかである必要があります");
            Err(m)
        }
    }
}

/// The output formats of manifest dumps.
#[derive(Debug, Clone, Copy, PartialEq, Eq, Structural)]
pub enum OutputFormat {
    Json,
}

impl OutputFormat {
    /// Reads an output format: only `json`, in any ASCII case; other values
    /// are refused with a usage message.
    pub fn parse(raw: &str) -> (r: Result<OutputFormat, String>)
        ensures
            r is Ok <==> ascii_lowercase(raw@) == "json"@,
            r matches Err(m) ==> m@ == "出力形式 `"@ + ascii_lowercase(raw@)
                + "` には対応していません（json のみサポート）"@,
    {
        let v = ascii_lowercase_str(raw);
        if str_eq(v.as_str(), "json") {
            Ok(OutputFormat::Json)
        } else {
            let mut m = string_of("出力形式 `");
            append_str(&mut m, v.as_str());
            append_str(&mut m, "` には対応していません（json のみサポート）");
            Err(m)
        }
    }
}

// ---------------------------------------------------------------------------
// The version of the binding generator

/// The length of the run of non-whitespace characters at the front of `s`.
pub open spec fn word_run_len(s: Seq<char>) -> nat
    decreases s.len(),
{
    if s.len() > 0 && !is_whitespace(s[0]) {
        1 + word_run_len(s.drop_first())
    } else {
        0
    }
}

/// The leading word of a text is no longer than the text, and is not empty
/// when the text starts with a character that is not whitespace.
pub proof fn lemma_word_run_len_bound(s: Seq<char>)
    ensures
        word_run_len(s) <= s.len(),
        s.len() > 0 && !is_whitespace(s[0]) ==> word_run_len(s) >= 1,
    decreases s.len(),
{
    if s.len() > 0 && !is_whitespace(s[0]) {
        lemma_word_run_len_bound(s.drop_first());
    }
}

/// Trimming the front of a text keeps one of its suffixes, which starts
/// with a character that is not whitespace when it is not empty.
pub proof fn lemma_trim_start_shape(s: Seq<char>)
    ensures
        trim_start(s).len() <= s.len(),
        trim_start(s).len() > 0 ==> !is_whitespace(trim_start(s)[0]),
        trim_start(s) == s.skip(s.len() - trim_start(s).len()),
    decreases s.len(),
{
    if s.len() > 0 && is_whitespace(s[0]) {
        lemma_trim_start_shape(s.drop_first());
        let t = trim_start(s.drop_first());
        assert(s.drop_first().skip(s.drop_first().len() - t.len()) =~= s.skip(s.len() - t.len()));
    } else {
        assert(s.skip(0) =~= s);
    }
}

/// Whether a word has an ASCII digit in it.
pub open spec fn has_ascii_digit(w: Seq<char>) -> bool {
    exists|i: int| 0 <= i < w.len() && '0' <= #[trigger] w[i] <= '9'
}

/// The first whitespace-separated word of `s` that has an ASCII digit.
pub open spec fn first_digit_word(s: Seq<char>) -> Option<Seq<char>>
    decreases s.len(),
{
    let t = trim_start(s);
    if t.len() == 0 {
        None
    } else {
        proof {
            lemma_trim_start_shape(s);
            lemma_word_run_len_bound(t);
        }
        let k = word_run_len(t);
        if has_ascii_digit(t.take(k as int)) {
            Some(t.take(k as int))
        } else {
            first_digit_word(t.skip(k as int))
        }
    }
}

/// `w` without the `v` and `:` characters at its two ends.
pub open spec fn strip_v_colon(w: Seq<char>) -> Seq<char>
    decreases w.len(),
{
    if w.len() > 0 && (w[0] == 'v' || w[0] == ':') {
        strip_v_colon(w.drop_first())
    } else if w.len() > 0 && (w.last() == 'v' || w.last() == ':') {
        strip_v_colon(w.drop_last())
    } else {
        w
    }
}

/// The version that `reml-bindgen --version` printed: the first word with a
/// digit in it, without `v` and `:` at its ends; the whole trimmed text when
/// no word has a digit; `unknown` when it printed nothing but blanks.
pub open spec fn bindgen_version_text(raw: Seq<char>) -> Seq<char> {
    let t = trim(raw);
    if t.len() == 0 {
        "unknown"@
    } else {
        match first_digit_word(t) {
            Some(w) => strip_v_colon(w),
            None => t,
        }
    }
}

fn strip_v_colon_range(cs: &Vec<char>, from: usize, to: usize) -> (r: String)
    requires
        from <= to <= cs.len(),
    ensures
        r@ == strip_v_colon(cs@.subrange(from as int, to as int)),
{
    let mut a = from;
    let mut b = to;
    while a < b && (cs[a] == 'v' || cs[a] == ':')
        invariant
            from <= a <= b <= to <= cs.len(),
            strip_v_colon(cs@.subrange(a as int, b as int)) == strip_v_colon(
                cs@.subrange(from as int, to as int),
            ),
        decreases b - a,
    {
        assert(cs@.subrange(a as int, b as int).drop_first() =~= cs@.subrange(a + 1, b as int));
        a += 1;
    }
    while a < b && (cs[b - 1] == 'v' || cs[b - 1] == ':')
        invariant
            from <= a <= b <= to <= cs.len(),
            a < b ==> cs@[a as int] != 'v' && cs@[a as int] != ':',
            strip_v_colon(cs@.subrange(a as int, b as int)) == strip_v_colon(
                cs@.subrange(from as int, to as int),
            ),
        decreases b - a,
    {
        assert(cs@.subrange(a as int, b as int).drop_last() =~= cs@.subrange(a as int, b - 1));
        b -= 1;
    }
    string_of_range(cs, a, b)
}

/// Reads the version out of what `reml-bindgen --version` printed.
pub fn parse_bindgen_version(raw: &str) -> (r: String)
    ensures
        r@ == bindgen_version_text(raw@),
{
    let trimmed = trim_str(raw);
    if trimmed.as_str().is_empty() {
        return string_of("unknown");
    }
    let cs = chars_of(trimmed.as_str());
    let ghost t = cs@;
    let mut i: usize = 0;
    proof {
        assert(t.skip(0) =~= t);
    }
    while i < cs.len()
        invariant
            t == cs@,
            t == trim(raw@),
            i <= cs.len(),
            first_digit_word(t.skip(i as int)) == first_digit_word(t),
        decreases cs.len() - i,
    {
        if is_whitespace_exec(cs[i]) {
            proof {
                assert(t.skip(i as int).drop_first() =~= t.skip(i + 1));
                assert(trim_start(t.skip(i as int)) == trim_start(t.skip(i + 1)));
            }
            i += 1;
        } else {
            let mut j = i;
            let mut digit = false;
            while j < cs.len() && !is_whitespace_exec(cs[j])
                invariant
                    t == cs@,
                    i <= j <= cs.len(),
                    forall|m: int| i <= m < j ==> !is_whitespace(#[trigger] t[m]),
                    digit == has_ascii_digit(t.subrange(i as int, j as int)),
                decreases cs.len() - j,
            {
                proof {
                    let w = t.subrange(i as int, j as int);
                    let w2 = t.subrange(i as int, j + 1);
                    assert(w2 =~= w.push(t[j as int]));
                    if has_ascii_digit(w) {
                        let x = choose|x: int| 0 <= x < w.len() && '0' <= #[trigger] w[x] <= '9';
                        assert(w2[x] == w[x]);
                    }
                    if '0' <= t[j as int] <= '9' {
                        assert(w2[j - i] == t[j as int]);
                    }
                    if has_ascii_digit(w2) {
                        let x = choose|x: int| 0 <= x < w2.len() && '0' <= #[trigger] w2[x] <= '9';
                        if x < w.len() {
                            assert(w[x] == w2[x]);
                        }
                    }
                }
                digit = digit || ('0' <= cs[j] && cs[j] <= '9');
                j += 1;
            }
            proof {
                let u = t.skip(i as int);
                assert(trim_start(u) == u);
                lemma_run_is_word(t, i as int, j as int);
                assert(u.take(j - i) =~= t.subrange(i as int, j as int));
                assert(u.skip(j - i) =~= t.skip(j as int));
            }
            if digit {
                return strip_v_colon_range(&cs, i, j);
            }
            i = j;
        }
    }
    proof {
        assert(t.skip(cs.len() as int) =~= Seq::<char>::empty());
        assert(trim_start(Seq::<char>::empty()).len() == 0);
    }
    trimmed
}

/// The run scanned from `i` to `j` is the leading word of `t.skip(i)`.
proof fn lemma_run_is_word(t: Seq<char>, i: int, j: int)
    requires
        0 <= i < j <= t.len(),
        forall|m: int| i <= m < j ==> !is_whitespace(#[trigger] t[m]),
        j == t.len() || is_whitespace(t[j]),
    ensures
        word_run_len(t.skip(i)) == j - i,
    decreases j - i,
{
    let u = t.skip(i);
    assert(!is_whitespace(u[0]));
    assert(u.drop_first() =~= t.skip(i + 1));
    assert(word_run_len(u) == 1 + word_run_len(t.skip(i + 1)));
    if i + 1 < j {
        lemma_run_is_word(t, i + 1, j);
    } else {
        let v = t.skip(i + 1);
        if v.len() > 0 {
            assert(v[0] == t[j]);
        }
        assert(word_run_len(v) == 0);
    }
}

// ---------------------------------------------------------------------------
// Exit codes

/// How a front-end run ends: cleanly, with warnings, or failed.
#[derive(Debug, Clone, Copy, PartialEq, Eq, Structural)]
pub enum CliExitStatus {
    Success,
    Warning,
    Failure,
}

/// The weight of a diagnostic's severity: `error` 3, `warning` 2, `info` 1,
/// anything else (or no severity) 0.
pub open spec fn severity_rank(s: Option<Seq<char>>) -> int {
    match s {
        Some(t) => if t == "error"@ {
            3
        } else if t == "warning"@ {
            2
        } else if t == "info"@ {
            1
        } else {
            0
        },
        None => 0,
    }
}

/// The highest weight among the severities (0 for none).
pub open spec fn max_severity_rank(s: Seq<Option<Seq<char>>>) -> int
    decreases s.len(),
{
    if s.len() == 0 {
        0
    } else {
        let r = max_severity_rank(s.drop_last());
        let l = severity_rank(s.last());
        if l > r {
            l
        } else {
            r
        }
    }
}

pub open spec fn severities_view(s: Seq<Option<String>>) -> Seq<Option<Seq<char>>> {
    s.map_values(|o: Option<String>| opt_string_view(o))
}

/// The exit status of a run from the severities of its diagnostics: failure
/// when one is an error, else a warning status when one is a warning, else
/// success.
pub fn determine_exit_code(severities: &Vec<Option<String>>) -> (r: CliExitStatus)
    ensures
        max_severity_rank(severities_view(severities@)) == 3 ==> r == CliExitStatus::Failure,
        max_severity_rank(severities_view(severities@)) == 2 ==> r == CliExitStatus::Warning,
        max_severity_rank(severities_view(severities@)) < 2 ==> r == CliExitStatus::Success,
{
    let mut rank: u8 = 0;
    let mut i: usize = 0;
    assert(severities_view(severities@.take(0)) =~= Seq::<Option<Seq<char>>>::empty());
    while i < severities.len()
        invariant
            i <= severities.len(),
            rank as int == max_severity_rank(severities_view(severities@.take(i as int))),
            rank <= 3,
        decreases severities.len() - i,
    {
        let weight: u8 = match &severities[i] {
            Some(t) => {
                if str_eq(t.as_str(), "error") {
                    3
                } else if str_eq(t.as_str(), "warning") {
                    2
                } else if str_eq(t.as_str(), "info") {
                    1
                } else {
                    0
                }
            },
            None => 0,
        };
        proof {
            let v = severities_view(severities@.take(i + 1));
            assert(v.drop_last() =~= severities_view(severities@.take(i as int)));
            assert(v.last() == opt_string_view(severities@[i as int]));
        }
        if weight > rank {
            rank = weight;
        }
        i += 1;
    }
    assert(severities@.take(severities.len() as int) =~= severities@);
    if rank == 3 {
        CliExitStatus::Failure
    } else if rank == 2 {
        CliExitStatus::Warning
    } else {
        CliExitStatus::Success
    }
}

proof fn lemma_max_rank_bounds(s: Seq<Option<Seq<char>>>)
    ensures
        forall|i: int| 0 <= i < s.len() ==> severity_rank(#[trigger] s[i]) <= max_severity_rank(s),
        s.len() == 0 ==> max_severity_rank(s) == 0,
        s.len() > 0 ==> exists|i: int|
            0 <= i < s.len() && severity_rank(#[trigger] s[i]) == max_severity_rank(s),
    decreases s.len(),
{
    if s.len() > 0 {
        let p = s.drop_last();
        lemma_max_rank_bounds(p);
        assert forall|i: int| 0 <= i < s.len() implies severity_rank(#[trigger] s[i]) <= max_severity_rank(s) by {
            if i < s.len() - 1 {
                assert(s[i] == p[i]);
            }
        }
        let last: int = s.len() - 1;
        if severity_rank(s.last()) > max_severity_rank(p) || p.len() == 0 {
            assert(severity_rank(s[last]) == max_severity_rank(s));
        } else {
            let j = choose|j: int| 0 <= j < p.len() && severity_rank(#[trigger] p[j]) == max_severity_rank(p);
            assert(s[j] == p[j]);
            assert(severity_rank(s[j]) == max_severity_rank(s));
        }
    }
}

/// The exit status is failure exactly when some diagnostic is an error, and
/// a warning status exactly when none is an error and some is a warning;
/// otherwise (info, other or missing severities) it is success.
pub proof fn lemma_exit_status_by_elements(s: Seq<Option<Seq<char>>>)
    ensures
        max_severity_rank(s) == 3 <==> exists|i: int| 0 <= i < s.len() && #[trigger] s[i] == Some("error"@),
        max_severity_rank(s) == 2 <==> (!(exists|i: int| 0 <= i < s.len() && #[trigger] s[i] == Some("error"@))
            && exists|i: int| 0 <= i < s.len() && #[trigger] s[i] == Some("warning"@)),
{
    reveal_strlit("error");
    reveal_strlit("warning");
    assert("warning"@ != "error"@) by {
        assert("warning"@.len() != "error"@.len());
    }
    lemma_max_rank_bounds(s);
    if exists|i: int| 0 <= i < s.len() && #[trigger] s[i] == Some("error"@) {
        let i = choose|i: int| 0 <= i < s.len() && #[trigger] s[i] == Some("error"@);
        assert(severity_rank(s[i]) == 3);
    }
    if exists|i: int| 0 <= i < s.len() && #[trigger] s[i] == Some("warning"@) {
        let i = choose|i: int| 0 <= i < s.len() && #[trigger] s[i] == Some("warning"@);
        assert(severity_rank(s[i]) == 2);
    }
    if max_severity_rank(s) >= 2 {
        let j = choose|j: int| 0 <= j < s.len() && severity_rank(#[trigger] s[j]) == max_severity_rank(s);
        assert(s[j] == Some("error"@) || s[j] == Some("warning"@));
    }
}

/// The exit status does not depend on the order of the diagnostics: two
/// lists with the same severities, each as often, give the same status.
pub proof fn lemma_exit_status_order_free(s: Seq<Option<Seq<char>>>, t: Seq<Option<Seq<char>>>)
    requires
        s.to_multiset() == t.to_multiset(),
    ensures
        max_severity_rank(s) == max_severity_rank(t),
{
    broadcast use vstd::seq_lib::group_to_multiset_ensures;
    lemma_max_rank_bounds(s);
    lemma_max_rank_bounds(t);
    if s.len() > 0 {
        let i = choose|i: int| 0 <= i < s.len() && severity_rank(#[trigger] s[i]) == max_severity_rank(s);
        assert(s.contains(s[i]));
        assert(s.to_multiset().count(s[i]) > 0);
        assert(t.contains(s[i]));
        let j = choose|j: int| 0 <= j < t.len() && t[j] == s[i];
        assert(severity_rank(t[j]) <= max_severity_rank(t));
    }
    if t.len() > 0 {
        let i = choose|i: int| 0 <= i < t.len() && severity_rank(#[trigger] t[i]) == max_severity_rank(t);
        assert(t.contains(t[i]));
        assert(t.to_multiset().count(t[i]) > 0);
        assert(s.contains(t[i]));
        let j = choose|j: int| 0 <= j < s.len() && s[j] == t[i];
        assert(severity_rank(s[j]) <= max_severity_rank(s));
    }
    assert(s.to_multiset().len() == t.to_multiset().len());
}

} // verus!
