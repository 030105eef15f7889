//! The recording session state machine.
//!
//! At most one session exists process-wide; callers hold its state behind an
//! exclusive guard and drive every transition through the functions here, so
//! the exclusivity rule — a second start is rejected while a session is
//! starting or recording — is enforced by the contracts below. The platform
//! streaming work happens between transitions: the caller moves the state to
//! `Starting`, invokes the platform, and reports the outcome back through
//! [`on_stream_started`] or [`fail_session`]; likewise for the stop flush.

use vstd::prelude::*;
use vstd::string::StringExecFns;
use crate::config::{RecordingConfig, RecordingTarget};
use crate::error::CaptureError;

verus! {

/// Lifecycle phase of the recording session.
#[derive(Debug)]
pub enum RecordingSessionState {
    Idle,
    Selecting,
    Starting,
    Recording { elapsed_seconds: u64 },
    Stopping,
    Completed,
    Failed { message: String },
    Cancelled,
}

/// A session is underway: a new start must be rejected.
pub open spec fn session_busy(s: RecordingSessionState) -> bool {
    s is Starting || s is Recording
}

/// Frames are being captured: the only state from which stop and cancel
/// are allowed.
pub open spec fn session_active(s: RecordingSessionState) -> bool {
    s is Recording
}

/// The session has ended and must be reset before another may start.
pub open spec fn session_terminal(s: RecordingSessionState) -> bool {
    s is Completed || s is Failed || s is Cancelled
}

impl Clone for RecordingSessionState {
    fn clone(&self) -> (r: RecordingSessionState)
        ensures
            r == *self,
    {
        match self {
            RecordingSessionState::Idle => RecordingSessionState::Idle,
            RecordingSessionState::Selecting => RecordingSessionState::Selecting,
            RecordingSessionState::Starting => RecordingSessionState::Starting,
            RecordingSessionState::Recording { elapsed_seconds } => {
                RecordingSessionState::Recording { elapsed_seconds: *elapsed_seconds }
            },
            RecordingSessionState::Stopping => RecordingSessionState::Stopping,
            RecordingSessionState::Completed => RecordingSessionState::Completed,
            RecordingSessionState::Failed { message } => {
                RecordingSessionState::Failed { message: message.clone() }
            },
            RecordingSessionState::Cancelled => RecordingSessionState::Cancelled,
        }
    }
}

/// Begin a session: rejected while one is already starting or recording,
/// otherwise the state moves to `Starting` and the caller may invoke the
/// platform streaming capability.
pub fn start_recording(
    _target: &RecordingTarget,
    _config: &RecordingConfig,
    state: &mut RecordingSessionState,
) -> (r: Result<(), CaptureError>)
    ensures
        session_busy(*old(state)) ==> (r matches Err(e) && (e matches CaptureError::RecordingFailed(m) && m@ == "Recording already in progress"@)) && *final(state) == *old(state),
        !session_busy(*old(state)) ==> r is Ok && *final(state) == RecordingSessionState::Starting,
{
    let busy = match state {
        RecordingSessionState::Starting => true,
        RecordingSessionState::Recording { .. } => true,
        _ => false,
    };
    if busy {
        return Err(CaptureError::RecordingFailed(String::from_str(
            "Recording already in progress",
        )));
    }
    *state = RecordingSessionState::Starting;
    Ok(())
}

/// The platform stream is up: the session moves from `Starting` to
/// `Recording` with no elapsed time. Elapsed seconds are advanced afterwards
/// by an external ticking collaborator through [`update_elapsed`].
pub fn on_stream_started(state: &mut RecordingSessionState)
    requires
        *old(state) is Starting,
    ensures
        *final(state) == (RecordingSessionState::Recording { elapsed_seconds: 0u64 }),
{
    *state = RecordingSessionState::Recording { elapsed_seconds: 0 };
}

/// Advance the elapsed-seconds counter of a running session.
pub fn update_elapsed(state: &mut RecordingSessionState, seconds: u64)
    requires
        *old(state) is Recording,
    ensures
        *final(state) == (RecordingSessionState::Recording { elapsed_seconds: seconds }),
{
    *state = RecordingSessionState::Recording { elapsed_seconds: seconds };
}

/// Request the end of the running session: rejected with
/// `RecordingNotActive` unless frames are being captured, otherwise the
/// state moves to `Stopping` and the caller flushes the output artifact,
/// reporting back through [`complete_stop`] or [`fail_session`].
pub fn stop_recording(state: &mut RecordingSessionState) -> (r: Result<(), CaptureError>)
    ensures
        session_active(*old(state)) ==> r is Ok && *final(state) == RecordingSessionState::Stopping,
        !session_active(*old(state)) ==> (r matches Err(e) && e is RecordingNotActive) && *final(state) == *old(state),
{
    let active = match state {
        RecordingSessionState::Recording { .. } => true,
        _ => false,
    };
    if !active {
        return Err(CaptureError::RecordingNotActive);
    }
    *state = RecordingSessionState::Stopping;
    Ok(())
}

/// The output artifact was flushed: the session is complete.
pub fn complete_stop(state: &mut RecordingSessionState)
    requires
        *old(state) is Stopping,
    ensures
        *final(state) == RecordingSessionState::Completed,
{
    *state = RecordingSessionState::Completed;
}

/// An unrecoverable platform error: any stage may move to `Failed`.
pub fn fail_session(state: &mut RecordingSessionState, message: String)
    ensures
        *final(state) == (RecordingSessionState::Failed { message }),
{
    *state = RecordingSessionState::Failed { message };
}

/// Cancel the running session: rejected with `RecordingNotActive` unless
/// frames are being captured, otherwise the state moves directly to
/// `Cancelled`; the caller discards any partial output without finalizing.
pub fn cancel_recording(state: &mut RecordingSessionState) -> (r: Result<(), CaptureError>)
    ensures
        session_active(*old(state)) ==> r is Ok && *final(state) == RecordingSessionState::Cancelled,
        !session_active(*old(state)) ==> (r matches Err(e) && e is RecordingNotActive) && *final(state) == *old(state),
{
    let active = match state {
        RecordingSessionState::Recording { .. } => true,
        _ => false,
    };
    if !active {
        return Err(CaptureError::RecordingNotActive);
    }
    *state = RecordingSessionState::Cancelled;
    Ok(())
}

/// Return a terminal session to `Idle` so a new one may start; reports
/// whether anything was reset.
pub fn reset_session(state: &mut RecordingSessionState) -> (r: bool)
    ensures
        session_terminal(*old(state)) ==> r && *final(state) == RecordingSessionState::Idle,
        !session_terminal(*old(state)) ==> !r && *final(state) == *old(state),
{
    let terminal = match state {
        RecordingSessionState::Completed => true,
        RecordingSessionState::Failed { .. } => true,
        RecordingSessionState::Cancelled => true,
        _ => false,
    };
    if !terminal {
        return false;
    }
    *state = RecordingSessionState::Idle;
    true
}

/// A snapshot of the current state; a pure read that never fails.
pub fn get_state(state: &RecordingSessionState) -> (r: RecordingSessionState)
    ensures
        r == *state,
{
    state.clone()
}

} // verus!
