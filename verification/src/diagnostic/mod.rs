//! Diagnostics of the front end: message registries, source positions for
//! reports, the audit timestamp and build ids, and the downgrade of
//! experimental diagnostics.

pub mod audit;
pub mod effects;
pub mod filter;
pub mod formatter;
pub mod json;
pub mod messages;
pub mod report;
pub mod typecheck;
pub mod unicode;

use vstd::prelude::*;

verus! {

/// How serious a diagnostic is.
#[derive(Debug, Clone, Copy, PartialEq, Eq, Hash, Structural)]
pub enum DiagnosticSeverity {
    Error,
    Warning,
    Info,
    Hint,
}

} // verus!
