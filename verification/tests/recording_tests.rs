use screencap::config::{RecordingConfig, RecordingTarget};
use screencap::error::CaptureError;
use screencap::recording::{
    cancel_recording, complete_stop, fail_session, get_state, on_stream_started, reset_session,
    start_recording, stop_recording, update_elapsed, RecordingSessionState,
};

fn target() -> RecordingTarget {
    RecordingTarget::Fullscreen { display_id: None }
}

#[test]
fn start_from_idle_moves_to_starting() {
    let mut state = RecordingSessionState::Idle;
    let r = start_recording(&target(), &RecordingConfig::default(), &mut state);
    assert!(r.is_ok());
    assert!(matches!(state, RecordingSessionState::Starting));
}

#[test]
fn start_while_starting_fails_and_keeps_state() {
    let mut state = RecordingSessionState::Starting;
    let r = start_recording(&target(), &RecordingConfig::default(), &mut state);
    match r {
        Err(CaptureError::RecordingFailed(m)) => {
            assert_eq!(m, "Recording already in progress");
        }
        other => panic!("expected RecordingFailed, got {other:?}"),
    }
    assert!(matches!(state, RecordingSessionState::Starting));
}

#[test]
fn start_while_recording_fails_and_keeps_elapsed() {
    let mut state = RecordingSessionState::Recording { elapsed_seconds: 17 };
    let r = start_recording(&target(), &RecordingConfig::default(), &mut state);
    assert!(matches!(r, Err(CaptureError::RecordingFailed(_))));
    assert!(matches!(state, RecordingSessionState::Recording { elapsed_seconds: 17 }));
}

#[test]
fn second_start_before_stop_is_rejected() {
    // Scenario: a start, the stream comes up, and a second start must be
    // rejected without touching the first session's state.
    let mut state = RecordingSessionState::Idle;
    start_recording(&target(), &RecordingConfig::default(), &mut state).unwrap();
    on_stream_started(&mut state);
    update_elapsed(&mut state, 3);
    let r = start_recording(&target(), &RecordingConfig::default(), &mut state);
    match r {
        Err(CaptureError::RecordingFailed(m)) => {
            assert_eq!(m, "Recording already in progress");
        }
        other => panic!("expected RecordingFailed, got {other:?}"),
    }
    assert!(matches!(state, RecordingSessionState::Recording { elapsed_seconds: 3 }));
}

#[test]
fn stop_outside_recording_is_not_active() {
    for mut state in [
        RecordingSessionState::Idle,
        RecordingSessionState::Selecting,
        RecordingSessionState::Starting,
        RecordingSessionState::Stopping,
        RecordingSessionState::Completed,
        RecordingSessionState::Failed { message: "x".to_string() },
        RecordingSessionState::Cancelled,
    ] {
        let r = stop_recording(&mut state);
        assert!(matches!(r, Err(CaptureError::RecordingNotActive)));
    }
}

#[test]
fn cancel_outside_recording_is_not_active() {
    for mut state in [
        RecordingSessionState::Idle,
        RecordingSessionState::Selecting,
        RecordingSessionState::Starting,
        RecordingSessionState::Stopping,
        RecordingSessionState::Completed,
        RecordingSessionState::Failed { message: "x".to_string() },
        RecordingSessionState::Cancelled,
    ] {
        let r = cancel_recording(&mut state);
        assert!(matches!(r, Err(CaptureError::RecordingNotActive)));
    }
}

#[test]
fn cancel_when_idle_is_not_active() {
    let mut state = RecordingSessionState::Idle;
    let r = cancel_recording(&mut state);
    assert!(matches!(r, Err(CaptureError::RecordingNotActive)));
    assert!(matches!(state, RecordingSessionState::Idle));
}

#[test]
fn cancel_while_recording_moves_to_cancelled() {
    let mut state = RecordingSessionState::Recording { elapsed_seconds: 9 };
    cancel_recording(&mut state).unwrap();
    assert!(matches!(state, RecordingSessionState::Cancelled));
}

#[test]
fn full_session_reaches_completed() {
    let mut state = RecordingSessionState::Idle;
    start_recording(&target(), &RecordingConfig::default(), &mut state).unwrap();
    on_stream_started(&mut state);
    assert!(matches!(state, RecordingSessionState::Recording { elapsed_seconds: 0 }));
    stop_recording(&mut state).unwrap();
    assert!(matches!(state, RecordingSessionState::Stopping));
    complete_stop(&mut state);
    assert!(matches!(state, RecordingSessionState::Completed));
}

#[test]
fn failure_carries_its_message() {
    let mut state = RecordingSessionState::Starting;
    fail_session(&mut state, "stream died".to_string());
    match state {
        RecordingSessionState::Failed { message } => assert_eq!(message, "stream died"),
        other => panic!("expected Failed, got {other:?}"),
    }
}

#[test]
fn reset_applies_only_to_terminal_states() {
    let mut state = RecordingSessionState::Cancelled;
    assert!(reset_session(&mut state));
    assert!(matches!(state, RecordingSessionState::Idle));

    let mut running = RecordingSessionState::Recording { elapsed_seconds: 1 };
    assert!(!reset_session(&mut running));
    assert!(matches!(running, RecordingSessionState::Recording { elapsed_seconds: 1 }));
}

#[test]
fn get_state_returns_an_equal_snapshot() {
    let state = RecordingSessionState::Failed { message: "boom".to_string() };
    let snap = get_state(&state);
    assert!(matches!(snap, RecordingSessionState::Failed { message } if message == "boom"));
}
