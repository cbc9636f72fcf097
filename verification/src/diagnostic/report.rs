//! The report entries of parser diagnostics: each diagnostic with its
//! position as lines and columns of the source, its codes, its notes and the
//! trace ids of the parser events it overlaps.

use crate::cli::{overlapping_trace_ids, trace_ids_for_diagnostic};
use crate::diagnostic::json::{last_at_most, line_starts, LineIndex};
use crate::parser::driver::{DiagnosticModel, DiagnosticNote, NoteModel, ParseDiagnostic};
use crate::parser::trace::{events_view, ParserTraceEvent, TraceEventView};
use crate::text::{str_eq, string_of, string_views};
use vstd::prelude::*;

verus! {

/// The 1-based line and column of a byte offset of a source text, the offset
/// being clamped to the end of the text.
pub open spec fn source_line_col(source: Seq<char>, offset: int) -> (int, int) {
    let len = vstd::utf8::encode_utf8(source).len() as int;
    let starts = line_starts(source, source.len() as int);
    let clamped = if offset < len {
        offset
    } else {
        len
    };
    let idx = last_at_most(starts, clamped);
    (idx + 1, clamped - starts[idx] + 1)
}

/// Where a diagnostic stands: the line and column of its start and its end.
#[derive(Debug, Clone, Copy, PartialEq, Eq, Structural)]
pub struct Location {
    pub line: u32,
    pub column: u32,
    pub end_line: u32,
    pub end_column: u32,
}

/// A parser diagnostic as reported.
#[derive(Debug)]
pub struct DiagnosticPayload {
    pub message: String,
    pub severity: String,
    pub domain: String,
    pub code: String,
    pub codes: Vec<String>,
    pub location: Location,
    pub notes: Vec<DiagnosticNote>,
    pub trace_ids: Vec<String>,
}

pub struct PayloadModel {
    pub message: Seq<char>,
    pub severity: Seq<char>,
    pub domain: Seq<char>,
    pub code: Seq<char>,
    pub codes: Seq<Seq<char>>,
    pub location: Location,
    pub notes: Seq<NoteModel>,
    pub trace_ids: Seq<Seq<char>>,
}

impl DiagnosticPayload {
    pub open spec fn model(self) -> PayloadModel {
        PayloadModel {
            message: self.message@,
            severity: self.severity@,
            domain: self.domain@,
            code: self.code@,
            codes: string_views(self.codes@),
            location: self.location,
            notes: self.notes@.map_values(|n: DiagnosticNote| n.model()),
            trace_ids: string_views(self.trace_ids@),
        }
    }
}

/// The report entry of a parser diagnostic: an error of the parser domain
/// with its code as its one code, located by the lines and columns of its
/// span's ends, with its notes, and with the trace ids of the events whose
/// spans overlap its span.
pub open spec fn parser_diagnostic(
    d: DiagnosticModel,
    source: Seq<char>,
    events: Seq<TraceEventView>,
) -> PayloadModel {
    let start = source_line_col(source, d.span.start as int);
    let end = source_line_col(source, d.span.end as int);
    PayloadModel {
        message: d.message,
        severity: "error"@,
        domain: "parser"@,
        code: d.code,
        codes: seq![d.code],
        location: Location {
            line: start.0 as u32,
            column: start.1 as u32,
            end_line: end.0 as u32,
            end_column: end.1 as u32,
        },
        notes: d.notes,
        trace_ids: overlapping_trace_ids(events, d.span),
    }
}

fn copy_notes(notes: &Vec<DiagnosticNote>) -> (r: Vec<DiagnosticNote>)
    ensures
        r@.map_values(|n: DiagnosticNote| n.model()) == notes@.map_values(
            |n: DiagnosticNote| n.model(),
        ),
{
    let mut r: Vec<DiagnosticNote> = Vec::new();
    let mut i: usize = 0;
    while i < notes.len()
        invariant
            i <= notes.len(),
            r@.map_values(|n: DiagnosticNote| n.model()) =~= notes@.take(i as int).map_values(
                |n: DiagnosticNote| n.model(),
            ),
        decreases notes.len() - i,
    {
        let n = DiagnosticNote {
            label: string_of(notes[i].label.as_str()),
            message: string_of(notes[i].message.as_str()),
        };
        let ghost prev = r@;
        r.push(n);
        proof {
            assert(r@.map_values(|n: DiagnosticNote| n.model()) =~= prev.map_values(
                |n: DiagnosticNote| n.model(),
            ).push(n.model()));
            assert(notes@.take(i + 1) =~= notes@.take(i as int).push(notes@[i as int]));
        }
        i += 1;
    }
    assert(notes@.take(notes.len() as int) =~= notes@);
    r
}

fn payload_of(d: &ParseDiagnostic, index: &LineIndex, source: &str, events: &Vec<ParserTraceEvent>) -> (r: DiagnosticPayload)
    requires
        index.wf(),
        index.spec_starts() == line_starts(source@, source@.len() as int),
        index.spec_len() == vstd::utf8::encode_utf8(source@).len(),
        index.spec_len() < u32::MAX,
    ensures
        r.model() == parser_diagnostic(d.model(), source@, events_view(events@)),
{
    let (line, column) = index.line_col(d.span.start as usize);
    let (end_line, end_column) = index.line_col(d.span.end as usize);
    let mut codes: Vec<String> = Vec::new();
    codes.push(string_of(d.code.as_str()));
    let trace_ids = trace_ids_for_diagnostic(Some(d.span), events);
    let r = DiagnosticPayload {
        message: string_of(d.message.as_str()),
        severity: string_of("error"),
        domain: string_of("parser"),
        code: string_of(d.code.as_str()),
        codes,
        location: Location { line, column, end_line, end_column },
        notes: copy_notes(&d.notes),
        trace_ids,
    };
    assert(string_views(r.codes@) =~= seq![d.code@]);
    assert(string_views(r.trace_ids@) =~= r.trace_ids@.map_values(|s: String| s@));
    r
}

/// The diagnostic carries a note on the tokens recovery expected.
pub open spec fn has_recover_note(d: DiagnosticModel) -> bool {
    exists|i: int| 0 <= i < d.notes.len() && (#[trigger] d.notes[i]).label == "recover.expected_tokens"@
}

/// A lexer diagnostic that streaming reports in place of a parse: it expects
/// no token, or only the placeholder token, and all its notes (at least one)
/// are the lexer's.
pub open spec fn is_streaming_placeholder(d: DiagnosticModel) -> bool {
    let alternatives = match d.expected_summary {
        Some(s) => s.alternatives,
        None => Seq::empty(),
    };
    &&& (alternatives.len() == 0 || (alternatives.len() == 1 && alternatives[0] == "解析継続トークン"@))
    &&& d.notes.len() > 0
    &&& forall|i: int| 0 <= i < d.notes.len() ==> (#[trigger] d.notes[i]).label == "lexer"@
}

pub open spec fn any_recover_note(ds: Seq<DiagnosticModel>) -> bool {
    exists|i: int| 0 <= i < ds.len() && has_recover_note(#[trigger] ds[i])
}

pub open spec fn placeholder_before(ds: Seq<DiagnosticModel>, n: int) -> bool {
    exists|j: int| 0 <= j < n && is_streaming_placeholder(#[trigger] ds[j])
}

/// Whether the `i`-th diagnostic is reported: with streaming on, a
/// placeholder is dropped when some diagnostic carries a recovery note, and
/// otherwise only the first placeholder is kept.
pub open spec fn reported(ds: Seq<DiagnosticModel>, i: int, streaming: bool) -> bool {
    !streaming || !is_streaming_placeholder(ds[i]) || (!any_recover_note(ds) && !placeholder_before(ds, i))
}

pub open spec fn reported_prefix(ds: Seq<DiagnosticModel>, n: int, streaming: bool) -> Seq<DiagnosticModel>
    decreases n,
{
    if n <= 0 {
        Seq::empty()
    } else {
        reported_prefix(ds, n - 1, streaming) + if reported(ds, n - 1, streaming) {
            seq![ds[n - 1]]
        } else {
            Seq::empty()
        }
    }
}

/// The diagnostics that are reported, in order; see `reported`.
pub open spec fn reported_diagnostics(ds: Seq<DiagnosticModel>, streaming: bool) -> Seq<DiagnosticModel> {
    reported_prefix(ds, ds.len() as int, streaming)
}

pub open spec fn diagnostic_models(ds: Seq<ParseDiagnostic>) -> Seq<DiagnosticModel> {
    ds.map_values(|d: ParseDiagnostic| d.model())
}

fn has_recover_note_exec(d: &ParseDiagnostic) -> (b: bool)
    ensures
        b == has_recover_note(d.model()),
{
    proof {
        reveal_strlit("recover.expected_tokens");
    }
    let mut i: usize = 0;
    while i < d.notes.len()
        invariant
            i <= d.notes.len(),
            forall|k: int| 0 <= k < i ==> (#[trigger] d.model().notes[k]).label != "recover.expected_tokens"@,
        decreases d.notes.len() - i,
    {
        assert(d.model().notes[i as int] == d.notes@[i as int].model());
        if str_eq(d.notes[i].label.as_str(), "recover.expected_tokens") {
            assert(d.model().notes[i as int].label == "recover.expected_tokens"@);
            return true;
        }
        i += 1;
    }
    false
}

fn is_streaming_placeholder_exec(d: &ParseDiagnostic) -> (b: bool)
    ensures
        b == is_streaming_placeholder(d.model()),
{
    proof {
        reveal_strlit("解析継続トークン");
        reveal_strlit("lexer");
    }
    let expects_nothing = match &d.expected_summary {
        Some(s) => {
            assert(s.model().alternatives == string_views(s.alternatives@));
            s.alternatives.len() == 0 || (s.alternatives.len() == 1 && str_eq(
                s.alternatives[0].as_str(),
                "解析継続トークン",
            ))
        },
        None => true,
    };
    if !expects_nothing || d.notes.len() == 0 {
        return false;
    }
    let mut i: usize = 0;
    while i < d.notes.len()
        invariant
            i <= d.notes.len(),
            forall|k: int| 0 <= k < i ==> (#[trigger] d.model().notes[k]).label == "lexer"@,
        decreases d.notes.len() - i,
    {
        assert(d.model().notes[i as int] == d.notes@[i as int].model());
        if !str_eq(d.notes[i].label.as_str(), "lexer") {
            return false;
        }
        i += 1;
    }
    true
}

/// The report entries of the reported parser diagnostics, in order; see
/// `reported_diagnostics` and `parser_diagnostic`.
pub fn build_parser_diagnostics(
    diagnostics: &Vec<ParseDiagnostic>,
    source: &str,
    events: &Vec<ParserTraceEvent>,
    streaming: bool,
) -> (r: Vec<DiagnosticPayload>)
    requires
        vstd::utf8::encode_utf8(source@).len() < u32::MAX,
    ensures
        r@.map_values(|p: DiagnosticPayload| p.model()) == reported_diagnostics(
            diagnostic_models(diagnostics@),
            streaming,
        ).map_values(|d: DiagnosticModel| parser_diagnostic(d, source@, events_view(events@))),
{
    let ghost ms = diagnostic_models(diagnostics@);
    let mut any_recover = false;
    let mut j: usize = 0;
    while j < diagnostics.len()
        invariant
            j <= diagnostics.len(),
            ms == diagnostic_models(diagnostics@),
            any_recover == exists|k: int| 0 <= k < j && has_recover_note(#[trigger] ms[k]),
        decreases diagnostics.len() - j,
    {
        if has_recover_note_exec(&diagnostics[j]) {
            assert(has_recover_note(ms[j as int]));
            any_recover = true;
        }
        j += 1;
    }
    let index = LineIndex::new(source);
    let mut r: Vec<DiagnosticPayload> = Vec::new();
    let mut seen_placeholder = false;
    let mut i: usize = 0;
    while i < diagnostics.len()
        invariant
            i <= diagnostics.len(),
            ms == diagnostic_models(diagnostics@),
            any_recover == any_recover_note(ms),
            seen_placeholder == placeholder_before(ms, i as int),
            index.wf(),
            index.spec_starts() == line_starts(source@, source@.len() as int),
            index.spec_len() == vstd::utf8::encode_utf8(source@).len(),
            index.spec_len() < u32::MAX,
            r@.map_values(|p: DiagnosticPayload| p.model()) == reported_prefix(ms, i as int, streaming).map_values(
                |d: DiagnosticModel| parser_diagnostic(d, source@, events_view(events@)),
            ),
        decreases diagnostics.len() - i,
    {
        let placeholder = is_streaming_placeholder_exec(&diagnostics[i]);
        let keep = !streaming || !placeholder || (!any_recover && !seen_placeholder);
        assert(keep == reported(ms, i as int, streaming));
        let ghost before = r@;
        if keep {
            let p = payload_of(&diagnostics[i], &index, source, events);
            r.push(p);
            assert(r@.map_values(|p: DiagnosticPayload| p.model()) =~= before.map_values(
                |p: DiagnosticPayload| p.model(),
            ).push(p.model()));
        }
        assert(reported_prefix(ms, i + 1, streaming).map_values(
            |d: DiagnosticModel| parser_diagnostic(d, source@, events_view(events@)),
        ) =~= r@.map_values(|p: DiagnosticPayload| p.model()));
        if placeholder {
            assert(is_streaming_placeholder(ms[i as int]));
            seen_placeholder = true;
        }
        assert(seen_placeholder == placeholder_before(ms, i + 1));
        i += 1;
    }
    r
}

} // verus!
