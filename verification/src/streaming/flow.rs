//! Settings of the stream runtime and the counters it keeps.

use vstd::prelude::*;

verus! {

/// Stream runtime settings, as given on the command line.
#[derive(Debug, Clone, PartialEq, Eq)]
pub struct StreamFlowConfig {
    pub enabled: bool,
    pub packrat_enabled: bool,
    pub resume_hint: Option<String>,
    pub checkpoint: Option<String>,
    pub flow_policy: Option<String>,
    pub flow_max_lag: Option<u64>,
    pub demand_min_bytes: Option<u64>,
    pub demand_preferred_bytes: Option<u64>,
}

fn copy_opt_string(s: &Option<String>) -> (r: Option<String>)
    ensures
        r == *s,
{
    match s {
        Some(v) => Some(v.clone()),
        None => None,
    }
}

impl StreamFlowConfig {
    /// A copy of the settings, field by field.
    pub fn duplicate(&self) -> (c: StreamFlowConfig)
        ensures
            c == *self,
    {
        StreamFlowConfig {
            enabled: self.enabled,
            packrat_enabled: self.packrat_enabled,
            resume_hint: copy_opt_string(&self.resume_hint),
            checkpoint: copy_opt_string(&self.checkpoint),
            flow_policy: copy_opt_string(&self.flow_policy),
            flow_max_lag: self.flow_max_lag,
            demand_min_bytes: self.demand_min_bytes,
            demand_preferred_bytes: self.demand_preferred_bytes,
        }
    }
}

impl Default for StreamFlowConfig {
    fn default() -> (c: StreamFlowConfig)
        ensures
            !c.enabled && !c.packrat_enabled,
            c.resume_hint is None && c.checkpoint is None && c.flow_policy is None,
            c.flow_max_lag is None && c.demand_min_bytes is None && c.demand_preferred_bytes is None,
    {
        StreamFlowConfig {
            enabled: false,
            packrat_enabled: false,
            resume_hint: None,
            checkpoint: None,
            flow_policy: None,
            flow_max_lag: None,
            demand_min_bytes: None,
            demand_preferred_bytes: None,
        }
    }
}

/// Counters of the stream runtime.
#[derive(Debug, Clone, Copy, PartialEq, Eq, Structural)]
pub struct StreamFlowMetrics {
    pub checkpoints_closed: u32,
}

impl Default for StreamFlowMetrics {
    fn default() -> (m: StreamFlowMetrics)
        ensures
            m.checkpoints_closed == 0,
    {
        StreamFlowMetrics { checkpoints_closed: 0 }
    }
}

/// The stream runtime's state: its settings and how many checkpoints were closed.
///
/// A clone is a state of its own: it starts from the same settings and count,
/// and checkpoints closed on one of the two are not counted on the other.
#[derive(Debug)]
pub struct StreamFlowState {
    config: StreamFlowConfig,
    checkpoints_closed: u32,
}

impl StreamFlowState {
    /// The settings held.
    pub closed spec fn spec_config(&self) -> StreamFlowConfig {
        self.config
    }

    /// The number of checkpoints closed so far.
    pub closed spec fn spec_checkpoints_closed(&self) -> u32 {
        self.checkpoints_closed
    }

    /// A state with the given settings and no checkpoint closed.
    pub fn new(config: StreamFlowConfig) -> (s: StreamFlowState)
        ensures
            s.spec_config() == config,
            s.spec_checkpoints_closed() == 0,
    {
        StreamFlowState { config, checkpoints_closed: 0 }
    }

    /// Whether streaming is enabled in the settings.
    pub fn enabled(&self) -> (b: bool)
        ensures
            b == self.spec_config().enabled,
    {
        self.config.enabled
    }

    /// A copy of the settings.
    pub fn config(&self) -> (c: Option<StreamFlowConfig>)
        ensures
            c == Some(self.spec_config()),
    {
        Some(self.config.duplicate())
    }

    /// Closes a checkpoint: the count of closed checkpoints goes up by one and
    /// the settings stay.
    pub fn checkpoint_end(&mut self)
        requires
            old(self).spec_checkpoints_closed() < u32::MAX,
        ensures
            final(self).spec_checkpoints_closed() == old(self).spec_checkpoints_closed() + 1,
            final(self).spec_config() == old(self).spec_config(),
    {
        self.checkpoints_closed = self.checkpoints_closed + 1;
    }

    /// The counters.
    pub fn metrics(&self) -> (m: StreamFlowMetrics)
        ensures
            m.checkpoints_closed == self.spec_checkpoints_closed(),
    {
        StreamFlowMetrics { checkpoints_closed: self.checkpoints_closed }
    }
}

impl Clone for StreamFlowState {
    /// The same settings and the same count of closed checkpoints.
    fn clone(&self) -> (s: StreamFlowState)
        ensures
            s.spec_config() == self.spec_config(),
            s.spec_checkpoints_closed() == self.spec_checkpoints_closed(),
    {
        StreamFlowState { config: self.config.duplicate(), checkpoints_closed: self.checkpoints_closed }
    }
}

} // verus!
