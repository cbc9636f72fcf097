//! The report entries of type-checker violations: each violation with its
//! position as lines and columns of the source, its code, its notes, and the
//! severity of its message template, lowered to a warning where an
//! experimental diagnostic is downgraded.

use crate::diagnostic::filter::{downgrade_spec, should_downgrade_experimental};
use crate::diagnostic::json::{line_starts, LineIndex};
use crate::diagnostic::messages::{find_message, spec_find_message};
use crate::diagnostic::report::{source_line_col, DiagnosticPayload, Location, PayloadModel};
use crate::diagnostic::DiagnosticSeverity;
use crate::parser::driver::{DiagnosticNote, NoteModel};
use crate::span::Span;
use crate::text::{string_of, string_views};
use crate::value::JsonValue;
use vstd::prelude::*;

verus! {

/// A violation found by the type checker, as its report entry reads it.
#[derive(Debug)]
pub struct TypeViolation {
    pub code: String,
    pub message: String,
    pub domain: String,
    pub span: Span,
    pub notes: Vec<DiagnosticNote>,
}

pub struct ViolationModel {
    pub code: Seq<char>,
    pub message: Seq<char>,
    pub domain: Seq<char>,
    pub span: Span,
    pub notes: Seq<NoteModel>,
}

impl TypeViolation {
    pub open spec fn model(self) -> ViolationModel {
        ViolationModel {
            code: self.code@,
            message: self.message@,
            domain: self.domain@,
            span: self.span,
            notes: self.notes@.map_values(|n: DiagnosticNote| n.model()),
        }
    }
}

/// The name of a severity in a report.
pub open spec fn severity_name(s: DiagnosticSeverity) -> Seq<char> {
    match s {
        DiagnosticSeverity::Error => "error"@,
        DiagnosticSeverity::Warning => "warning"@,
        DiagnosticSeverity::Info => "info"@,
        DiagnosticSeverity::Hint => "hint"@,
    }
}

/// The severity of a violation's entry: `warning` when it is downgraded,
/// else that of the message template for its code, else `error`.
pub open spec fn type_severity(code: Seq<char>, downgraded: bool) -> Seq<char> {
    if downgraded {
        "warning"@
    } else {
        match spec_find_message(code) {
            Some(t) => severity_name(t.severity),
            None => "error"@,
        }
    }
}

/// The report entry of a violation: its message, domain and code (its one
/// code), the severity of `type_severity`, located by the lines and columns
/// of its span's ends, with its notes and no trace ids.
pub open spec fn type_diagnostic(v: ViolationModel, source: Seq<char>, downgraded: bool) -> PayloadModel {
    let start = source_line_col(source, v.span.start as int);
    let end = source_line_col(source, v.span.end as int);
    PayloadModel {
        message: v.message,
        severity: type_severity(v.code, downgraded),
        domain: v.domain,
        code: v.code,
        codes: seq![v.code],
        location: Location {
            line: start.0 as u32,
            column: start.1 as u32,
            end_line: end.0 as u32,
            end_column: end.1 as u32,
        },
        notes: v.notes,
        trace_ids: Seq::empty(),
    }
}

fn severity_text(s: DiagnosticSeverity) -> (r: String)
    ensures
        r@ == severity_name(s),
{
    proof {
        reveal_strlit("error");
        reveal_strlit("warning");
        reveal_strlit("info");
        reveal_strlit("hint");
    }
    match s {
        DiagnosticSeverity::Error => string_of("error"),
        DiagnosticSeverity::Warning => string_of("warning"),
        DiagnosticSeverity::Info => string_of("info"),
        DiagnosticSeverity::Hint => string_of("hint"),
    }
}

fn copy_notes(notes: &Vec<DiagnosticNote>) -> (r: Vec<DiagnosticNote>)
    ensures
        r@.map_values(|n: DiagnosticNote| n.model()) == notes@.map_values(
            |n: DiagnosticNote| n.model(),
        ),
{
    let mut r: Vec<DiagnosticNote> = Vec::new();
    let mut i: usize = 0;
    while i < notes.len()
        invariant
            i <= notes.len(),
            r@.map_values(|n: DiagnosticNote| n.model()) =~= notes@.take(i as int).map_values(
                |n: DiagnosticNote| n.model(),
            ),
        decreases notes.len() - i,
    {
        let n = DiagnosticNote {
            label: string_of(notes[i].label.as_str()),
            message: string_of(notes[i].message.as_str()),
        };
        let ghost prev = r@;
        r.push(n);
        proof {
            assert(r@.map_values(|n: DiagnosticNote| n.model()) =~= prev.map_values(
                |n: DiagnosticNote| n.model(),
            ).push(n.model()));
            assert(notes@.take(i + 1) =~= notes@.take(i as int).push(notes@[i as int]));
        }
        i += 1;
    }
    assert(notes@.take(notes.len() as int) =~= notes@);
    r
}

fn type_payload_of(
    v: &TypeViolation,
    index: &LineIndex,
    source: &str,
    ack_experimental: bool,
    ext: &Vec<(String, JsonValue)>,
) -> (r: DiagnosticPayload)
    requires
        index.wf(),
        index.spec_starts() == line_starts(source@, source@.len() as int),
        index.spec_len() == vstd::utf8::encode_utf8(source@).len(),
        index.spec_len() < u32::MAX,
    ensures
        r.model() == type_diagnostic(v.model(), source@, downgrade_spec(ack_experimental, ext@)),
{
    let (line, column) = index.line_col(v.span.start as usize);
    let (end_line, end_column) = index.line_col(v.span.end as usize);
    let downgraded = should_downgrade_experimental(ack_experimental, ext);
    let severity = if downgraded {
        proof {
            reveal_strlit("warning");
        }
        string_of("warning")
    } else {
        match find_message(v.code.as_str()) {
            Some(t) => severity_text(t.severity),
            None => {
                proof {
                    reveal_strlit("error");
                }
                string_of("error")
            },
        }
    };
    let mut codes: Vec<String> = Vec::new();
    codes.push(string_of(v.code.as_str()));
    let r = DiagnosticPayload {
        message: string_of(v.message.as_str()),
        severity,
        domain: string_of(v.domain.as_str()),
        code: string_of(v.code.as_str()),
        codes,
        location: Location { line, column, end_line, end_column },
        notes: copy_notes(&v.notes),
        trace_ids: Vec::new(),
    };
    assert(string_views(r.codes@) =~= seq![v.code@]);
    assert(string_views(r.trace_ids@) =~= Seq::<Seq<char>>::empty());
    r
}

/// The report entries of type-checker violations, in order, the `i`-th
/// downgraded as `downgrade_spec` says of the extensions `exts[i]`; see
/// `type_diagnostic`.
pub fn build_type_diagnostics(
    violations: &Vec<TypeViolation>,
    source: &str,
    ack_experimental: bool,
    exts: &Vec<Vec<(String, JsonValue)>>,
) -> (r: Vec<DiagnosticPayload>)
    requires
        vstd::utf8::encode_utf8(source@).len() < u32::MAX,
        exts@.len() == violations@.len(),
    ensures
        r@.len() == violations@.len(),
        forall|i: int|
            0 <= i < r@.len() ==> (#[trigger] r@[i]).model() == type_diagnostic(
                violations@[i].model(),
                source@,
                downgrade_spec(ack_experimental, exts@[i]@),
            ),
{
    let index = LineIndex::new(source);
    let mut r: Vec<DiagnosticPayload> = Vec::new();
    let mut i: usize = 0;
    while i < violations.len()
        invariant
            i <= violations.len(),
            exts@.len() == violations@.len(),
            index.wf(),
            index.spec_starts() == line_starts(source@, source@.len() as int),
            index.spec_len() == vstd::utf8::encode_utf8(source@).len(),
            index.spec_len() < u32::MAX,
            r@.len() == i,
            forall|k: int|
                0 <= k < i ==> (#[trigger] r@[k]).model() == type_diagnostic(
                    violations@[k].model(),
                    source@,
                    downgrade_spec(ack_experimental, exts@[k]@),
                ),
        decreases violations.len() - i,
    {
        let p = type_payload_of(&violations[i], &index, source, ack_experimental, &exts[i]);
        r.push(p);
        i += 1;
    }
    r
}

} // verus!
