//! Registries of diagnostic message templates.

pub mod language;
pub mod pattern;

pub use language::{find_language_message, language_messages, LanguageDiagnosticMessage};
pub use pattern::{find_pattern_message, pattern_messages, PatternDiagnosticMessage};

use crate::diagnostic::DiagnosticSeverity;
use vstd::prelude::*;

verus! {

/// A message template from either registry.
#[derive(Debug, Clone, Copy)]
pub struct DiagnosticMessageTemplate {
    pub code: &'static str,
    pub title: &'static str,
    pub message: &'static str,
    pub severity: DiagnosticSeverity,
}

impl DiagnosticMessageTemplate {
    pub open spec fn spec_from_pattern(m: PatternDiagnosticMessage) -> DiagnosticMessageTemplate {
        DiagnosticMessageTemplate {
            code: m.code,
            title: m.title,
            message: m.message,
            severity: m.severity,
        }
    }

    pub open spec fn spec_from_language(m: LanguageDiagnosticMessage) -> DiagnosticMessageTemplate {
        DiagnosticMessageTemplate {
            code: m.code,
            title: m.title,
            message: m.message,
            severity: m.severity,
        }
    }

    fn from_pattern(message: &PatternDiagnosticMessage) -> (t: DiagnosticMessageTemplate)
        ensures
            t == Self::spec_from_pattern(*message),
    {
        DiagnosticMessageTemplate {
            code: message.code,
            title: message.title,
            message: message.message,
            severity: message.severity,
        }
    }

    fn from_language(message: &LanguageDiagnosticMessage) -> (t: DiagnosticMessageTemplate)
        ensures
            t == Self::spec_from_language(*message),
    {
        DiagnosticMessageTemplate {
            code: message.code,
            title: message.title,
            message: message.message,
            severity: message.severity,
        }
    }
}

/// The template for `code`: the pattern registry is searched first, then the
/// language registry.
pub open spec fn spec_find_message(code: Seq<char>) -> Option<DiagnosticMessageTemplate> {
    match pattern::first_with_code(pattern::spec_pattern_messages(), code) {
        Some(m) => Some(DiagnosticMessageTemplate::spec_from_pattern(m)),
        None => match language::first_with_code(language::spec_language_messages(), code) {
            Some(m) => Some(DiagnosticMessageTemplate::spec_from_language(m)),
            None => None,
        },
    }
}

/// Looks a code up in the pattern registry, then in the language registry.
pub fn find_message(code: &str) -> (r: Option<DiagnosticMessageTemplate>)
    ensures
        r == spec_find_message(code@),
{
    match find_pattern_message(code) {
        Some(m) => Some(DiagnosticMessageTemplate::from_pattern(&m)),
        None => match find_language_message(code) {
            Some(m) => Some(DiagnosticMessageTemplate::from_language(&m)),
            None => None,
        },
    }
}

} // verus!
