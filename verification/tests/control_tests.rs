use camera_recorder::control::{PipelineController, PipelineState, TransitionOutcome};
use camera_recorder::errors::ControlError;
use camera_recorder::events::{
    ErrorRecord, StatusEvent, TermReason, TerminationSignal, dispatch,
};
use camera_recorder::graph::StageGraph;
use camera_recorder::recorder::build_recorder_graph;
use camera_recorder::stage::{StageRegistry, StageSpec};

fn record(source: &str, message: &str) -> ErrorRecord {
    ErrorRecord {
        source: source.to_string(),
        message: message.to_string(),
        detail: None,
        cause: None,
    }
}

#[test]
fn stop_on_idle_controller_is_noop_success() {
    let (graph, _handles) = build_recorder_graph("/dev/video0", "seg%05d.mp4").unwrap();
    let mut ctrl = PipelineController::new(graph);
    assert_eq!(ctrl.state, PipelineState::Idle);
    let r = ctrl.stop();
    assert_eq!(r, Ok(TransitionOutcome::Success));
    assert_eq!(ctrl.state, PipelineState::Idle);
    assert_eq!(ctrl.pending, None);
    // stopping twice is just as safe
    assert_eq!(ctrl.stop(), Ok(TransitionOutcome::Success));
}

#[test]
fn start_fails_on_incomplete_linkage() {
    let mut g = StageGraph::new(StageRegistry::new());
    let r = g.add(&StageSpec::new("anything", "a"));
    assert!(r.is_err());
    let mut ctrl = PipelineController::new(g);
    assert_eq!(ctrl.start(), Err(ControlError::LinkageIncomplete));
    assert_eq!(ctrl.state, PipelineState::Idle);
}

#[test]
fn start_on_complete_chain_goes_async_to_playing() {
    let (graph, _handles) = build_recorder_graph("/dev/video0", "seg%05d.mp4").unwrap();
    let mut ctrl = PipelineController::new(graph);
    let r = ctrl.start();
    assert_eq!(r, Ok(TransitionOutcome::Async));
    assert_eq!(ctrl.pending, Some(PipelineState::Playing));
    ctrl.complete_transition(PipelineState::Ready);
    assert_eq!(ctrl.state, PipelineState::Ready);
    assert_eq!(ctrl.pending, Some(PipelineState::Playing));
    ctrl.complete_transition(PipelineState::Playing);
    assert_eq!(ctrl.state, PipelineState::Playing);
    assert_eq!(ctrl.pending, None);
    let r = ctrl.stop();
    assert_eq!(r, Ok(TransitionOutcome::Success));
    assert_eq!(ctrl.state, PipelineState::Idle);
}

#[test]
fn control_error_messages() {
    assert_eq!(ControlError::LinkageIncomplete.describe(), "pipeline linkage incomplete");
    assert_eq!(ControlError::WatchFailed.describe(), "status watch registration failed");
}

#[test]
fn end_of_stream_sets_signal_and_ends_watch() {
    let mut sig = TerminationSignal::new();
    let rep = dispatch(&mut sig, &StatusEvent::EndOfStream);
    assert!(!rep.keep_watching);
    assert!(rep.warning.is_none());
    assert!(rep.error.is_none());
    assert!(sig.is_set());
    assert!(matches!(sig.reason, Some(TermReason::Completed)));
}

#[test]
fn error_event_sets_signal_and_surfaces_record() {
    let mut sig = TerminationSignal::new();
    let rep = dispatch(&mut sig, &StatusEvent::Error { record: record("sink0", "disk full") });
    assert!(!rep.keep_watching);
    let surfaced = rep.error.unwrap();
    assert_eq!(surfaced.source, "sink0");
    assert_eq!(surfaced.message, "disk full");
    match sig.reason {
        Some(TermReason::Failed(r)) => assert_eq!(r.message, "disk full"),
        _ => panic!("expected a failure reason"),
    }
}

#[test]
fn warning_is_surfaced_without_terminating() {
    let mut sig = TerminationSignal::new();
    let rep = dispatch(&mut sig, &StatusEvent::Warning { record: record("src0", "slow disk") });
    assert!(rep.keep_watching);
    assert_eq!(rep.warning.unwrap().summary(), "src0: slow disk");
    assert!(!sig.is_set());
}

#[test]
fn state_changes_and_other_events_are_ignored_for_termination() {
    let mut sig = TerminationSignal::new();
    let rep = dispatch(
        &mut sig,
        &StatusEvent::StateChanged {
            source: "pipeline".to_string(),
            previous: PipelineState::Idle,
            current: PipelineState::Ready,
            pending: Some(PipelineState::Playing),
        },
    );
    assert!(rep.keep_watching);
    let rep = dispatch(&mut sig, &StatusEvent::Other);
    assert!(rep.keep_watching);
    assert!(!sig.is_set());
}

#[test]
fn first_write_wins_end_of_stream_then_error() {
    let mut sig = TerminationSignal::new();
    dispatch(&mut sig, &StatusEvent::EndOfStream);
    // a later error is still reported, but must not overwrite the reason
    let rep = dispatch(&mut sig, &StatusEvent::Error { record: record("sink0", "late fault") });
    assert!(rep.error.is_some());
    assert!(matches!(sig.reason, Some(TermReason::Completed)));
}

#[test]
fn first_write_wins_error_then_end_of_stream() {
    let mut sig = TerminationSignal::new();
    dispatch(&mut sig, &StatusEvent::Error { record: record("sink0", "disk full") });
    dispatch(&mut sig, &StatusEvent::EndOfStream);
    match sig.take() {
        Some(TermReason::Failed(r)) => assert_eq!(r.summary(), "sink0: disk full"),
        _ => panic!("expected the first-written failure reason"),
    }
    // take clears the signal
    assert!(!sig.is_set());
}

#[test]
fn error_record_summary_is_source_and_message() {
    let r = ErrorRecord {
        source: "pipeline/sink0".to_string(),
        message: "disk full".to_string(),
        detail: Some("errno 28".to_string()),
        cause: Some("ENOSPC".to_string()),
    };
    assert_eq!(r.summary(), "pipeline/sink0: disk full");
}
