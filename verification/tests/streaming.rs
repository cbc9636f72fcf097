use reml_frontend::span::{Span, SpanTagged};
use reml_frontend::streaming::flow::{StreamFlowConfig, StreamFlowState};
use reml_frontend::streaming::StreamingState;

#[test]
fn spans_and_tagged_values() {
    let s = Span::new(3, 7);
    assert_eq!(s.len(), 4);
    assert!(!s.is_empty());
    assert_eq!(Span::new(7, 3), Span::new(7, 7));
    assert!(Span::new(5, 5).is_empty());
    let t = SpanTagged::new(21, s).map(|v| v * 2);
    assert_eq!(t.value, 42);
    assert_eq!(t.span, s);
    assert_eq!(s.to_string(), "[3..7)");
    assert_eq!(Span::default().to_string(), "[0..0)");
}

#[test]
fn streaming_metrics_and_checkpoints() {
    let mut state = StreamingState::new();
    state.record_cache_hit();
    state.record_cache_hit();
    state.record_cache_miss();
    assert_eq!(state.metrics.cache_hit, 2);
    assert_eq!(state.metrics.cache_miss, 1);
    state.push_checkpoint(Span::new(0, 4));
    state.push_checkpoint(Span::new(4, 8));
    state.commit_last();
    assert_eq!(state.checkpoints.len(), 2);
    assert!(!state.checkpoints[0].committed);
    assert!(state.checkpoints[1].committed);
    assert_eq!(state.checkpoints[1].position, Span::new(4, 8));
}

#[test]
fn flow_state_reports_its_config() {
    let mut config = StreamFlowConfig::default();
    config.enabled = true;
    config.flow_max_lag = Some(9);
    let state = StreamFlowState::new(config);
    assert!(state.enabled());
    assert_eq!(state.config().unwrap().flow_max_lag, Some(9));
    assert_eq!(state.metrics().checkpoints_closed, 0);
    assert!(!StreamFlowState::new(StreamFlowConfig::default()).enabled());
}

#[test]
fn closing_checkpoints_counts_them() {
    let mut state = StreamFlowState::new(StreamFlowConfig::default());
    state.checkpoint_end();
    state.checkpoint_end();
    assert_eq!(state.metrics().checkpoints_closed, 2);
    assert!(!state.enabled());
}

#[test]
fn a_clone_keeps_the_settings_and_the_count() {
    let mut config = StreamFlowConfig::default();
    config.enabled = true;
    config.checkpoint = Some("cp".to_string());
    let mut state = StreamFlowState::new(config);
    state.checkpoint_end();
    state.checkpoint_end();
    let copy = state.clone();
    assert!(copy.enabled());
    assert_eq!(copy.metrics().checkpoints_closed, 2);
    assert_eq!(copy.config().and_then(|c| c.checkpoint), Some("cp".to_string()));
}
