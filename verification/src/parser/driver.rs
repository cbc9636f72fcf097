//! The parser driver: lexes source text, parses the tokens, and reports the
//! lexer's and the parser's errors as diagnostics.

use crate::diagnostic::json::quoted_tokens;
use crate::error::{FrontendError, FrontendErrorKind};
use crate::lexer::{lex_errors, lex_source, lex_tokens};
use crate::parser::ast::Module;
use crate::parser::grammar::{
    grammar_parse, module_model, parse_module, tmodels, ModuleModel, ParseError, ParseErrorModel,
};
use crate::parser::render::module_text;
use crate::span::Span;
use crate::text::{append_str, join, join_strings, string_of, string_views};
use vstd::prelude::*;

verus! {

/// A note attached to a diagnostic.
#[derive(Debug)]
pub struct DiagnosticNote {
    pub label: String,
    pub message: String,
}

/// The tokens a syntax error expected: their labels and, when there are
/// any, the sentence that names them.
#[derive(Debug)]
pub struct ExpectedTokensSummary {
    pub alternatives: Vec<String>,
    pub humanized: Option<String>,
}

impl ExpectedTokensSummary {
    /// Whether some token was expected.
    pub fn has_alternatives(&self) -> (b: bool)
        ensures
            b == (self.alternatives@.len() > 0),
    {
        self.alternatives.len() > 0
    }
}

/// A diagnostic of the parser driver.
#[derive(Debug)]
pub struct ParseDiagnostic {
    pub message: String,
    pub span: Span,
    pub code: String,
    pub notes: Vec<DiagnosticNote>,
    pub expected_summary: Option<ExpectedTokensSummary>,
}

/// What parsing a source text gives: the module, when the text parses; the
/// diagnostics, the lexer's first and then the parser's; the largest end
/// offset of their spans; and the parse error itself, if any.
#[derive(Debug)]
pub struct ParseResult {
    pub value: Option<Module>,
    pub diagnostics: Vec<ParseDiagnostic>,
    pub farthest_error_offset: Option<u32>,
    pub legacy_error: Option<ParseError>,
}

pub struct NoteModel {
    pub label: Seq<char>,
    pub message: Seq<char>,
}

/// An expected-tokens summary as a mathematical value: the labels and the sentence.
pub struct SummaryModel {
    pub alternatives: Seq<Seq<char>>,
    pub humanized: Option<Seq<char>>,
}

pub struct DiagnosticModel {
    pub message: Seq<char>,
    pub span: Span,
    pub code: Seq<char>,
    pub notes: Seq<NoteModel>,
    pub expected_summary: Option<SummaryModel>,
}

pub struct ParseResultModel {
    pub value: Option<ModuleModel>,
    pub diagnostics: Seq<DiagnosticModel>,
    pub farthest_error_offset: Option<u32>,
    pub legacy_error: Option<ParseErrorModel>,
}

impl ExpectedTokensSummary {
    pub open spec fn model(self) -> SummaryModel {
        SummaryModel {
            alternatives: string_views(self.alternatives@),
            humanized: match self.humanized {
                Some(h) => Some(h@),
                None => None,
            },
        }
    }
}

/// The largest end offset of the diagnostics' spans; none without diagnostics.
pub open spec fn farthest_end(ds: Seq<DiagnosticModel>) -> Option<u32>
    decreases ds.len(),
{
    if ds.len() == 0 {
        None
    } else {
        let e = ds.last().span.end;
        match farthest_end(ds.drop_last()) {
            Some(r) => Some(if r >= e {
                r
            } else {
                e
            }),
            None => Some(e),
        }
    }
}

impl DiagnosticNote {
    pub open spec fn model(self) -> NoteModel {
        NoteModel { label: self.label@, message: self.message@ }
    }
}

impl ParseDiagnostic {
    pub open spec fn model(self) -> DiagnosticModel {
        DiagnosticModel {
            message: self.message@,
            span: self.span,
            code: self.code@,
            notes: self.notes@.map_values(|n: DiagnosticNote| n.model()),
            expected_summary: match self.expected_summary {
                Some(x) => Some(x.model()),
                None => None,
            },
        }
    }
}

impl ParseResult {
    pub open spec fn model(self) -> ParseResultModel {
        ParseResultModel {
            value: match self.value {
                Some(m) => Some(module_model(m)),
                None => None,
            },
            diagnostics: self.diagnostics@.map_values(|d: ParseDiagnostic| d.model()),
            farthest_error_offset: self.farthest_error_offset,
            legacy_error: match self.legacy_error {
                Some(e) => Some(e.model()),
                None => None,
            },
        }
    }

    /// The module rendered as text, when the source parsed.
    pub fn ast_render(&self) -> (r: Option<String>)
        ensures
            match self.value {
                Some(m) => r matches Some(s) && s@ == module_text(m),
                None => r is None,
            },
    {
        match &self.value {
            Some(m) => Some(m.render()),
            None => None,
        }
    }
}

/// The note that names the tokens that could stand where parsing stopped:
/// one label, or the labels with `または` before the last.
pub open spec fn expected_note_text(labels: Seq<Seq<char>>) -> Seq<char> {
    if labels.len() == 1 {
        "ここで`"@ + labels[0] + "`が必要です"@
    } else {
        "ここで"@ + join(quoted_tokens(labels.drop_last()), "、"@) + " または `"@ + labels.last()
            + "`のいずれかが必要です"@
    }
}

/// The diagnostic for a character sequence that starts no token.
pub open spec fn lexer_diagnostic(e: FrontendError) -> DiagnosticModel {
    match e.kind {
        FrontendErrorKind::UnknownToken { span } => DiagnosticModel {
            message: "未定義のトークンです"@,
            span,
            code: "parser.lexer.unknown_token"@,
            notes: seq![NoteModel { label: "lexer"@, message: "未定義のトークンをスキップします"@ }],
            expected_summary: None,
        },
    }
}

/// The diagnostic for a parse error: the syntax-error message at the error's
/// span, with a note on the expected tokens when there are any.
pub open spec fn syntax_diagnostic(e: ParseErrorModel) -> DiagnosticModel {
    DiagnosticModel {
        message: "構文エラー: 入力を解釈できません"@,
        span: e.span,
        code: "parser.syntax.expected_tokens"@,
        notes: if e.expected.len() > 0 {
            seq![
                NoteModel {
                    label: "recover.expected_tokens"@,
                    message: expected_note_text(e.expected),
                },
            ]
        } else {
            Seq::empty()
        },
        expected_summary: Some(
            SummaryModel {
                alternatives: e.expected,
                humanized: if e.expected.len() > 0 {
                    Some(expected_note_text(e.expected))
                } else {
                    None
                },
            },
        ),
    }
}

/// What `parse` gives for a source text.
pub open spec fn parse_spec(text: Seq<char>) -> ParseResultModel {
    let lexed = lex_errors(text).map_values(|e: FrontendError| lexer_diagnostic(e));
    match grammar_parse(lex_tokens(text)) {
        Ok(m) => ParseResultModel {
            value: Some(m),
            diagnostics: lexed,
            farthest_error_offset: farthest_end(lexed),
            legacy_error: None,
        },
        Err(e) => ParseResultModel {
            value: None,
            diagnostics: lexed.push(syntax_diagnostic(e)),
            farthest_error_offset: farthest_end(lexed.push(syntax_diagnostic(e))),
            legacy_error: Some(e),
        },
    }
}

fn expected_note(labels: &Vec<String>) -> (r: String)
    requires
        labels.len() > 0,
    ensures
        r@ == expected_note_text(string_views(labels@)),
{
    let n = labels.len();
    if n == 1 {
        let mut r = string_of("ここで`");
        append_str(&mut r, labels[0].as_str());
        append_str(&mut r, "`が必要です");
        return r;
    }
    let mut quoted: Vec<String> = Vec::new();
    let mut i: usize = 0;
    while i < n - 1
        invariant
            n == labels.len(),
            n > 1,
            i <= n - 1,
            string_views(quoted@) =~= quoted_tokens(string_views(labels@.take(i as int))),
        decreases n - 1 - i,
    {
        let mut q = string_of("`");
        append_str(&mut q, labels[i].as_str());
        append_str(&mut q, "`");
        let ghost prev = quoted@;
        quoted.push(q);
        proof {
            assert(string_views(quoted@) =~= string_views(prev).push(q@));
            assert(labels@.take(i + 1) =~= labels@.take(i as int).push(labels@[i as int]));
            assert(string_views(labels@.take(i + 1)) =~= string_views(labels@.take(i as int)).push(
                labels@[i as int]@,
            ));
        }
        i += 1;
    }
    assert(string_views(labels@.take((n - 1) as int)) =~= string_views(labels@).drop_last());
    let mut r = string_of("ここで");
    append_str(&mut r, join_strings(&quoted, "、").as_str());
    append_str(&mut r, " または `");
    append_str(&mut r, labels[n - 1].as_str());
    append_str(&mut r, "`のいずれかが必要です");
    r
}

fn diagnostic_of_lexer_error(e: &FrontendError) -> (d: ParseDiagnostic)
    ensures
        d.model() == lexer_diagnostic(*e),
{
    match e.kind {
        FrontendErrorKind::UnknownToken { span } => {
            let mut notes: Vec<DiagnosticNote> = Vec::new();
            let note = DiagnosticNote {
                label: string_of("lexer"),
                message: string_of("未定義のトークンをスキップします"),
            };
            notes.push(note);
            let d = ParseDiagnostic {
                message: string_of("未定義のトークンです"),
                span,
                code: string_of("parser.lexer.unknown_token"),
                notes,
                expected_summary: None,
            };
            assert(d.model().notes =~= lexer_diagnostic(*e).notes);
            d
        },
    }
}

/// The diagnostic that reports a parse error.
pub fn syntax_error_diagnostic(e: &ParseError) -> (d: ParseDiagnostic)
    ensures
        d.model() == syntax_diagnostic(e.model()),
{
    let mut notes: Vec<DiagnosticNote> = Vec::new();
    let mut humanized: Option<String> = None;
    if e.expected.len() > 0 {
        let note = DiagnosticNote {
            label: string_of("recover.expected_tokens"),
            message: expected_note(&e.expected),
        };
        humanized = Some(expected_note(&e.expected));
        notes.push(note);
    }
    let summary = ExpectedTokensSummary { alternatives: copy_strings(&e.expected), humanized };
    let d = ParseDiagnostic {
        message: string_of("構文エラー: 入力を解釈できません"),
        span: e.span,
        code: string_of("parser.syntax.expected_tokens"),
        notes,
        expected_summary: Some(summary),
    };
    assert(d.model().notes =~= syntax_diagnostic(e.model()).notes);
    d
}

fn copy_strings(v: &Vec<String>) -> (r: Vec<String>)
    ensures
        string_views(r@) == string_views(v@),
{
    let mut r: Vec<String> = Vec::new();
    let mut i: usize = 0;
    while i < v.len()
        invariant
            i <= v.len(),
            string_views(r@) =~= string_views(v@.take(i as int)),
        decreases v.len() - i,
    {
        let t = string_of(v[i].as_str());
        let ghost prev = r@;
        r.push(t);
        proof {
            assert(string_views(r@) =~= string_views(prev).push(t@));
            assert(v@.take(i + 1) =~= v@.take(i as int).push(v@[i as int]));
        }
        i += 1;
    }
    assert(v@.take(v.len() as int) =~= v@);
    r
}

fn copy_parse_error(e: &ParseError) -> (r: ParseError)
    ensures
        r.model() == e.model(),
{
    ParseError { span: e.span, expected: copy_strings(&e.expected) }
}

/// The largest end offset of the diagnostics' spans.
fn farthest_offset(ds: &Vec<ParseDiagnostic>) -> (r: Option<u32>)
    ensures
        r == farthest_end(ds@.map_values(|d: ParseDiagnostic| d.model())),
{
    let ghost ms = ds@.map_values(|d: ParseDiagnostic| d.model());
    let mut r: Option<u32> = None;
    let mut i: usize = 0;
    assert(ms.take(0) =~= Seq::<DiagnosticModel>::empty());
    while i < ds.len()
        invariant
            i <= ds.len(),
            ms == ds@.map_values(|d: ParseDiagnostic| d.model()),
            r == farthest_end(ms.take(i as int)),
        decreases ds.len() - i,
    {
        let e = ds[i].span.end;
        assert(ms.take(i + 1).drop_last() =~= ms.take(i as int));
        assert(ms.take(i + 1).last() == ds@[i as int].model());
        r = match r {
            Some(x) => Some(if x >= e {
                x
            } else {
                e
            }),
            None => Some(e),
        };
        i += 1;
    }
    assert(ms.take(ds.len() as int) =~= ms);
    r
}

/// The entry point of the front end's parser.
pub struct ParserDriver;

impl ParserDriver {

/// Parses source text: lexes it, parses the tokens into a module, and reports
/// each lexer error and the parse error, if any, as a diagnostic.
pub fn parse(source: &str) -> (r: ParseResult)
    ensures
        r.model() == parse_spec(source@),
{
    let lexed = lex_source(source);
    let mut diagnostics: Vec<ParseDiagnostic> = Vec::new();
    let mut i: usize = 0;
    while i < lexed.errors.len()
        invariant
            i <= lexed.errors.len(),
            diagnostics@.map_values(|d: ParseDiagnostic| d.model()) =~= lexed.errors@.take(
                i as int,
            ).map_values(|e: FrontendError| lexer_diagnostic(e)),
        decreases lexed.errors.len() - i,
    {
        let d = diagnostic_of_lexer_error(&lexed.errors[i]);
        let ghost prev = diagnostics@;
        diagnostics.push(d);
        proof {
            assert(diagnostics@.map_values(|d: ParseDiagnostic| d.model()) =~= prev.map_values(
                |d: ParseDiagnostic| d.model(),
            ).push(d.model()));
            assert(lexed.errors@.take(i + 1) =~= lexed.errors@.take(i as int).push(
                lexed.errors@[i as int],
            ));
        }
        i += 1;
    }
    assert(lexed.errors@.take(lexed.errors.len() as int) =~= lexed.errors@);
    assert(tmodels(lexed.tokens@) == lexed.token_models());
    match parse_module(&lexed.tokens) {
        Ok(m) => {
            let farthest = farthest_offset(&diagnostics);
            ParseResult {
                value: Some(m),
                diagnostics,
                farthest_error_offset: farthest,
                legacy_error: None,
            }
        },
        Err(e) => {
            let d = syntax_error_diagnostic(&e);
            let ghost prev = diagnostics@;
            diagnostics.push(d);
            assert(diagnostics@.map_values(|d: ParseDiagnostic| d.model()) =~= prev.map_values(
                |d: ParseDiagnostic| d.model(),
            ).push(d.model()));
            let farthest = farthest_offset(&diagnostics);
            ParseResult {
                value: None,
                diagnostics,
                farthest_error_offset: farthest,
                legacy_error: Some(copy_parse_error(&e)),
            }
        },
    }
}

}

} // verus!
