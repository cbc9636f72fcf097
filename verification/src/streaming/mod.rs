//! State kept while parsing in streaming mode: packrat cache counters and
//! checkpoints.

pub mod flow;

pub use flow::{StreamFlowConfig, StreamFlowMetrics, StreamFlowState};

use crate::span::Span;
use vstd::prelude::*;

verus! {

/// Counters of the packrat cache.
#[derive(Debug, Clone, Copy, PartialEq, Eq, Structural)]
pub struct StreamMetrics {
    pub cache_hit: u64,
    pub cache_miss: u64,
    pub replay_count: u64,
}

impl Default for StreamMetrics {
    fn default() -> (m: StreamMetrics)
        ensures
            m.cache_hit == 0 && m.cache_miss == 0 && m.replay_count == 0,
    {
        StreamMetrics { cache_hit: 0, cache_miss: 0, replay_count: 0 }
    }
}

/// A checkpoint of streaming analysis: a position and whether it is committed.
#[derive(Debug, Clone, Copy, PartialEq, Eq, Structural)]
pub struct StreamCheckpoint {
    pub position: Span,
    pub committed: bool,
}

/// The whole streaming state.
#[derive(Debug)]
pub struct StreamingState {
    pub metrics: StreamMetrics,
    pub checkpoints: Vec<StreamCheckpoint>,
}

/// `a + 1`, staying at `u64::MAX` once there.
pub open spec fn saturating_inc(a: u64) -> u64 {
    if a == u64::MAX {
        a
    } else {
        (a + 1) as u64
    }
}

/// The checkpoints after `commit_last`: the last one marked committed.
pub open spec fn commit_last_spec(cps: Seq<StreamCheckpoint>) -> Seq<StreamCheckpoint> {
    if cps.len() == 0 {
        cps
    } else {
        cps.update(
            cps.len() - 1,
            StreamCheckpoint { position: cps.last().position, committed: true },
        )
    }
}

impl Default for StreamingState {
    fn default() -> (s: StreamingState)
        ensures
            s.metrics == (StreamMetrics { cache_hit: 0, cache_miss: 0, replay_count: 0 }),
            s.checkpoints@.len() == 0,
    {
        StreamingState { metrics: StreamMetrics::default(), checkpoints: Vec::new() }
    }
}

impl StreamingState {
    /// An empty state: zero counters and no checkpoints.
    pub fn new() -> (s: StreamingState)
        ensures
            s.metrics == (StreamMetrics { cache_hit: 0, cache_miss: 0, replay_count: 0 }),
            s.checkpoints@.len() == 0,
    {
        Self::default()
    }

    /// Counts one packrat cache hit (saturating).
    pub fn record_cache_hit(&mut self)
        ensures
            final(self).metrics.cache_hit == saturating_inc(old(self).metrics.cache_hit),
            final(self).metrics.cache_miss == old(self).metrics.cache_miss,
            final(self).metrics.replay_count == old(self).metrics.replay_count,
            final(self).checkpoints@ == old(self).checkpoints@,
    {
        self.metrics.cache_hit = self.metrics.cache_hit.saturating_add(1);
    }

    /// Counts one packrat cache miss (saturating).
    pub fn record_cache_miss(&mut self)
        ensures
            final(self).metrics.cache_miss == saturating_inc(old(self).metrics.cache_miss),
            final(self).metrics.cache_hit == old(self).metrics.cache_hit,
            final(self).metrics.replay_count == old(self).metrics.replay_count,
            final(self).checkpoints@ == old(self).checkpoints@,
    {
        self.metrics.cache_miss = self.metrics.cache_miss.saturating_add(1);
    }

    /// Appends an uncommitted checkpoint at `span`.
    pub fn push_checkpoint(&mut self, span: Span)
        ensures
            final(self).checkpoints@ == old(self).checkpoints@.push(
                StreamCheckpoint { position: span, committed: false },
            ),
            final(self).metrics == old(self).metrics,
    {
        self.checkpoints.push(StreamCheckpoint { position: span, committed: false });
    }

    /// Marks the last checkpoint committed; does nothing without checkpoints.
    pub fn commit_last(&mut self)
        ensures
            final(self).checkpoints@ == commit_last_spec(old(self).checkpoints@),
            final(self).metrics == old(self).metrics,
    {
        let n = self.checkpoints.len();
        if n > 0 {
            let position = self.checkpoints[n - 1].position;
            self.checkpoints.set(n - 1, StreamCheckpoint { position, committed: true });
        }
    }
}

/// Law of checkpoints: committing changes only the last checkpoint, keeps its
/// position and the number of checkpoints, and committing twice is the same
/// as committing once.
pub proof fn lemma_commit_last(cps: Seq<StreamCheckpoint>)
    ensures
        commit_last_spec(cps).len() == cps.len(),
        forall|k: int| 0 <= k < cps.len() - 1 ==> #[trigger] commit_last_spec(cps)[k] == cps[k],
        cps.len() > 0 ==> commit_last_spec(cps).last().committed,
        cps.len() > 0 ==> commit_last_spec(cps).last().position == cps.last().position,
        commit_last_spec(commit_last_spec(cps)) == commit_last_spec(cps),
{
    if cps.len() > 0 {
        assert(commit_last_spec(commit_last_spec(cps)) =~= commit_last_spec(cps));
    }
}

/// Law of `push_checkpoint` then `commit_last`: the pushed checkpoint ends up
/// committed at the pushed span, with the earlier checkpoints untouched.
pub proof fn lemma_push_then_commit(cps: Seq<StreamCheckpoint>, span: Span)
    ensures
        commit_last_spec(cps.push(StreamCheckpoint { position: span, committed: false }))
            == cps.push(StreamCheckpoint { position: span, committed: true }),
{
    assert(commit_last_spec(cps.push(StreamCheckpoint { position: span, committed: false }))
        =~= cps.push(StreamCheckpoint { position: span, committed: true }));
}

} // verus!
