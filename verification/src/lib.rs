//! Front end of the Reml language: source positions, tokens, the lexer,
//! streaming state, diagnostics helpers, the surface AST with its renderer
//! and trace events, the lowering of typed modules to MIR, and the
//! decisions of the command-line front end.

pub mod build_config;
pub mod cli;
pub mod diagnostic;
pub mod error;
pub mod lexer;
pub mod parser;
pub mod semantics;
pub mod span;
pub mod streaming;
pub mod token;
pub mod value;
pub mod workspace;
pub mod text;

pub use span::{Span, SpanTagged};
pub use token::{Token, TokenKind};
pub use error::{FrontendError, FrontendErrorKind, Recoverability};

use vstd::prelude::*;

verus! {

/// Identifier of a source file inside the front end.
pub type SourceId = u32;

/// Options of the front end as a whole.
#[derive(Debug, Clone)]
pub struct FrontendConfig {
    /// Whether packrat cache counters and span traces are kept.
    pub enable_streaming_metrics: bool,
    /// The source file being analysed.
    pub source_id: Option<SourceId>,
}

impl Default for FrontendConfig {
    /// No streaming metrics and no source file.
    fn default() -> (c: FrontendConfig)
        ensures
            !c.enable_streaming_metrics,
            c.source_id is None,
    {
        FrontendConfig { enable_streaming_metrics: false, source_id: None }
    }
}

} // verus!
