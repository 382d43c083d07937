use camera_recorder::cli::parse_args;
use camera_recorder::control::{PipelineController, PipelineState};
use camera_recorder::errors::ControlError;
use camera_recorder::events::{ErrorRecord, StatusEvent, TermReason};
use camera_recorder::recorder::build_recorder_graph;
use camera_recorder::session::run_session;
use camera_recorder::stage::PropValue;

fn recorder_controller() -> PipelineController {
    let (graph, _handles) = build_recorder_graph("/dev/video0", "seg%05d.mp4").unwrap();
    PipelineController::new(graph)
}

fn warning(source: &str, message: &str) -> StatusEvent {
    StatusEvent::Warning {
        record: ErrorRecord {
            source: source.to_string(),
            message: message.to_string(),
            detail: None,
            cause: None,
        },
    }
}

fn state_changed(previous: PipelineState, current: PipelineState) -> StatusEvent {
    StatusEvent::StateChanged {
        source: "pipeline".to_string(),
        previous,
        current,
        pending: None,
    }
}

#[test]
fn graceful_run_terminates_only_at_end_of_stream() {
    let mut ctrl = recorder_controller();
    let events = vec![
        state_changed(PipelineState::Idle, PipelineState::Ready),
        state_changed(PipelineState::Ready, PipelineState::Paused),
        state_changed(PipelineState::Paused, PipelineState::Playing),
        warning("src0", "w1"),
        StatusEvent::EndOfStream,
    ];
    let rep = run_session(&mut ctrl, true, &events);
    assert!(rep.failure.is_none());
    assert!(rep.started);
    // the loop did not terminate before the end-of-stream event
    assert_eq!(rep.processed, 5);
    // the warning was surfaced exactly once
    assert_eq!(rep.warnings.len(), 1);
    assert_eq!(rep.warnings[0].summary(), "src0: w1");
    assert!(matches!(rep.termination, Some(TermReason::Completed)));
    assert_eq!(rep.stop_calls, 1);
    assert!(rep.watcher_detached);
    assert_eq!(rep.exit_code(), 0);
    assert_eq!(ctrl.state, PipelineState::Idle);
}

#[test]
fn error_run_stops_once_and_exits_nonzero() {
    let mut ctrl = recorder_controller();
    let events = vec![
        state_changed(PipelineState::Idle, PipelineState::Ready),
        StatusEvent::Error {
            record: ErrorRecord {
                source: "sink0".to_string(),
                message: "disk full".to_string(),
                detail: Some("errno 28".to_string()),
                cause: Some("ENOSPC".to_string()),
            },
        },
    ];
    let rep = run_session(&mut ctrl, true, &events);
    assert_eq!(rep.stop_calls, 1);
    assert!(rep.watcher_detached);
    assert_ne!(rep.exit_code(), 0);
    match &rep.termination {
        Some(TermReason::Failed(r)) => {
            let message = r.summary();
            assert!(message.contains("sink0"));
            assert!(message.contains("disk full"));
        },
        _ => panic!("expected a failure reason"),
    }
    assert_eq!(ctrl.state, PipelineState::Idle);
}

#[test]
fn events_after_the_first_terminal_one_are_not_processed() {
    let mut ctrl = recorder_controller();
    let events = vec![
        StatusEvent::EndOfStream,
        StatusEvent::Error {
            record: ErrorRecord {
                source: "sink0".to_string(),
                message: "late fault".to_string(),
                detail: None,
                cause: None,
            },
        },
    ];
    let rep = run_session(&mut ctrl, true, &events);
    assert_eq!(rep.processed, 1);
    assert!(matches!(rep.termination, Some(TermReason::Completed)));
    assert_eq!(rep.exit_code(), 0);
}

#[test]
fn exhausted_events_leave_the_session_running() {
    let mut ctrl = recorder_controller();
    let events = vec![warning("src0", "w1"), StatusEvent::Other];
    let rep = run_session(&mut ctrl, true, &events);
    assert_eq!(rep.processed, 2);
    assert!(rep.termination.is_none());
    assert_eq!(rep.stop_calls, 0);
    assert!(!rep.watcher_detached);
}

#[test]
fn watch_registration_failure_aborts_before_start() {
    let mut ctrl = recorder_controller();
    let events = vec![StatusEvent::EndOfStream];
    let rep = run_session(&mut ctrl, false, &events);
    assert_eq!(rep.failure, Some(ControlError::WatchFailed));
    assert!(!rep.started);
    assert_eq!(rep.processed, 0);
    assert_eq!(rep.stop_calls, 0);
    assert_ne!(rep.exit_code(), 0);
    assert_eq!(ctrl.state, PipelineState::Idle);
}

#[test]
fn incomplete_linkage_aborts_before_start() {
    let (graph, handles) = build_recorder_graph("/dev/video0", "seg%05d.mp4").unwrap();
    // a freshly built but never linked graph would be incomplete; simulate by
    // building a controller over a graph with stages but no links
    let mut unlinked = camera_recorder::graph::StageGraph::new(
        camera_recorder::recorder::recorder_registry(),
    );
    unlinked.add(&camera_recorder::stage::StageSpec::new("queue", "q0")).unwrap();
    unlinked.add(&camera_recorder::stage::StageSpec::new("queue", "q1")).unwrap();
    let mut ctrl = PipelineController::new(unlinked);
    let rep = run_session(&mut ctrl, true, &vec![StatusEvent::EndOfStream]);
    assert_eq!(rep.failure, Some(ControlError::LinkageIncomplete));
    assert!(!rep.started);
    assert_ne!(rep.exit_code(), 0);
    // the fully built recorder graph by contrast is complete
    let mut ok_ctrl = PipelineController::new(graph);
    assert!(ok_ctrl.start().is_ok());
    assert_eq!(handles.len(), 8);
}

#[test]
fn recorder_graph_is_a_complete_chain_of_eight() {
    let (graph, handles) = build_recorder_graph("/dev/video2", "cam/seg%05d.mp4").unwrap();
    assert_eq!(graph.stage_count(), 8);
    assert_eq!(handles.len(), 8);
    assert!(graph.linkage_complete());
    for name in [
        "v4l2src",
        "video_filter",
        "jpegdec",
        "encode_queue",
        "x264enc",
        "h264_filter",
        "h264parse",
        "splitmuxsink",
    ] {
        assert!(graph.contains_instance(&name.to_string()));
    }
}

#[test]
fn usage_error_on_wrong_arity() {
    // no arguments at all
    assert!(parse_args(&Vec::new()).is_err());
    // program name only
    let r = parse_args(&vec!["recorder".to_string()]);
    let usage = r.err().unwrap().usage_line();
    assert_eq!(usage, "Usage: recorder <device> <location>");
    // one positional argument
    assert!(parse_args(&vec!["recorder".to_string(), "/dev/video0".to_string()]).is_err());
    // three positional arguments
    assert!(parse_args(&vec![
        "recorder".to_string(),
        "/dev/video0".to_string(),
        "seg%05d.mp4".to_string(),
        "extra".to_string(),
    ])
    .is_err());
}

#[test]
fn two_positional_arguments_are_accepted() {
    let args = vec![
        "recorder".to_string(),
        "/dev/video0".to_string(),
        "cam/seg%05d.mp4".to_string(),
    ];
    let cfg = parse_args(&args).unwrap();
    assert_eq!(cfg.device, "/dev/video0");
    assert_eq!(cfg.location, "cam/seg%05d.mp4");
}

#[test]
fn recorder_stages_carry_the_mandated_configuration() {
    let (graph, _handles) = build_recorder_graph("/dev/video1", "out/seg%05d.mp4").unwrap();

    // capture stage receives the device identifier
    let capture = &graph.stages[0];
    assert_eq!(capture.instance_name, "v4l2src");
    assert_eq!(capture.props.len(), 1);
    assert_eq!(capture.props[0].name, "device");
    assert!(matches!(&capture.props[0].value, PropValue::Text(t) if t == "/dev/video1"));

    // encoder receives the maximum keyframe interval
    let encoder = &graph.stages[4];
    assert_eq!(encoder.props[0].name, "key-int-max");
    assert!(matches!(encoder.props[0].value, PropValue::Uint(10)));

    // sink receives the location template, the 10-second maximum segment
    // duration, and keyframe alignment at segment boundaries
    let sink = &graph.stages[7];
    assert_eq!(sink.props.len(), 3);
    assert_eq!(sink.props[0].name, "location");
    assert!(matches!(&sink.props[0].value, PropValue::Text(t) if t == "out/seg%05d.mp4"));
    assert_eq!(sink.props[1].name, "max-size-time");
    assert!(matches!(sink.props[1].value, PropValue::Uint(10_000_000_000)));
    assert_eq!(sink.props[2].name, "send-keyframe-requests");
    assert!(matches!(sink.props[2].value, PropValue::Flag(true)));
}
