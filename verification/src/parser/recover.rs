//! How many diagnostics streaming recovery emits per checkpoint.

use vstd::prelude::*;

verus! {

/// Counts the diagnostics emitted since the last checkpoint and remembers
/// the index of the last one, so that later errors of the same checkpoint
/// can be merged into it once the limit is reached.
#[derive(Debug)]
pub struct StreamingRecoverLimiter {
    max_per_checkpoint: usize,
    emitted_in_checkpoint: usize,
    last_emitted_index: Option<usize>,
}

impl StreamingRecoverLimiter {
    pub closed spec fn spec_max(&self) -> usize {
        self.max_per_checkpoint
    }

    pub closed spec fn spec_emitted(&self) -> usize {
        self.emitted_in_checkpoint
    }

    pub closed spec fn spec_last(&self) -> Option<usize> {
        self.last_emitted_index
    }

    /// A limiter allowing `max_per_checkpoint` diagnostics per checkpoint,
    /// with none emitted yet.
    pub fn new(max_per_checkpoint: usize) -> (l: StreamingRecoverLimiter)
        ensures
            l.spec_max() == max_per_checkpoint,
            l.spec_emitted() == 0,
            l.spec_last() is None,
    {
        StreamingRecoverLimiter { max_per_checkpoint, emitted_in_checkpoint: 0, last_emitted_index: None }
    }

    /// Starts a new checkpoint: nothing emitted in it yet.
    pub fn reset(&mut self)
        ensures
            final(self).spec_max() == old(self).spec_max(),
            final(self).spec_emitted() == 0,
            final(self).spec_last() is None,
    {
        self.emitted_in_checkpoint = 0;
        self.last_emitted_index = None;
    }

    /// Whether another diagnostic may be emitted in this checkpoint.
    pub fn can_emit(&self) -> (b: bool)
        ensures
            b == (self.spec_emitted() < self.spec_max()),
    {
        self.emitted_in_checkpoint < self.max_per_checkpoint
    }

    /// Records that the diagnostic at `index` was emitted (the count
    /// saturates).
    pub fn record_emission(&mut self, index: usize)
        ensures
            final(self).spec_max() == old(self).spec_max(),
            final(self).spec_emitted() == (if old(self).spec_emitted() == usize::MAX {
                usize::MAX
            } else {
                (old(self).spec_emitted() + 1) as usize
            }),
            final(self).spec_last() == Some(index),
    {
        self.emitted_in_checkpoint = self.emitted_in_checkpoint.saturating_add(1);
        self.last_emitted_index = Some(index);
    }

    /// The index of the last diagnostic emitted in this checkpoint.
    pub fn last_emitted_index(&self) -> (r: Option<usize>)
        ensures
            r == self.spec_last(),
    {
        self.last_emitted_index
    }
}

} // verus!
