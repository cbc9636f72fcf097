//! Errors reported by the front end's lexer.

use crate::span::Span;
use vstd::prelude::*;

verus! {

/// Whether analysis can continue after an error.
#[derive(Debug, Clone, Copy, PartialEq, Eq, Structural)]
pub enum Recoverability {
    Recoverable,
    Fatal,
}

/// What went wrong.
#[derive(Debug, Clone, Copy, PartialEq, Eq, Structural)]
pub enum FrontendErrorKind {
    /// Text at `span` is not a token; the lexer skips it.
    UnknownToken { span: Span },
}

/// A front-end error with its recoverability.
#[derive(Debug, Clone, Copy, PartialEq, Eq, Structural)]
pub struct FrontendError {
    pub kind: FrontendErrorKind,
    pub recoverability: Recoverability,
}

impl FrontendError {
    pub fn new(kind: FrontendErrorKind, recoverability: Recoverability) -> (e: FrontendError)
        ensures
            e.kind == kind,
            e.recoverability == recoverability,
    {
        FrontendError { kind, recoverability }
    }
}

} // verus!
