//! What the streaming runner reports besides a parse result.

use crate::streaming::{StreamFlowMetrics, StreamMetrics};
use vstd::prelude::*;

verus! {

/// The counters of a streaming run: the packrat cache's and the stream
/// runtime's.
#[derive(Debug, Clone, Copy)]
pub struct StreamMeta {
    pub metrics: StreamMetrics,
    pub flow: StreamFlowMetrics,
}

/// What a paused run asks for before it resumes.
#[derive(Debug, Clone)]
pub struct DemandHint {
    pub min_bytes: usize,
    pub preferred_bytes: Option<usize>,
    pub resume_hint: Option<String>,
    pub reason: Option<String>,
}

} // verus!
