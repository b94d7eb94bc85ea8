//! Transition rules of the recording state machine. The event layer reads the
//! current state and the recorder's mute flag, asks these functions what to
//! do, performs the side effects and publishes the resulting state.
use crate::state::RecordingState;
use vstd::prelude::*;

verus! {

/// What a hotkey press leads to.
#[derive(Debug, Clone, Copy, PartialEq, Eq, Structural)]
pub enum PressOutcome {
    /// State becomes `Recording` and the recorder starts buffering.
    Begin,
    /// The model is still warming up: a "please wait" notice is shown.
    PleaseWait,
    /// The state is not `Idle` (a session runs, or the state says muted
    /// while the recorder is open): nothing happens.
    Busy,
    /// The microphone is muted: a notice names the unmute hotkey.
    MicrophoneMuted,
    /// No transcription model is loaded: the main window is opened.
    NoModel,
}

/// What a mute-toggle request leads to.
#[derive(Debug, Clone, Copy, PartialEq, Eq, Structural)]
pub enum ToggleAction {
    /// Tear the capture stream down; state becomes `Muted`.
    Mute,
    /// Rebuild the capture stream; on success state becomes `Idle`.
    Unmute,
    /// Requests during a recording session are ignored.
    Ignore,
}

/// True for the two states of a running recording session.
pub open spec fn in_session(s: RecordingState) -> bool {
    s == RecordingState::Recording || s == RecordingState::Transcribing
}

/// Decides a hotkey press, given the current state, whether the recorder is
/// muted, and whether a transcription model is loaded. Apart from warmup,
/// the recorder's mute flag and the model are checked before the state:
/// only an `Idle` state with an open recorder and a model begins.
pub fn on_press(current: RecordingState, muted: bool, model_loaded: bool) -> (r: PressOutcome)
    ensures
        current == RecordingState::WarmingUp ==> r == PressOutcome::PleaseWait,
        current != RecordingState::WarmingUp ==> {
            &&& muted ==> r == PressOutcome::MicrophoneMuted
            &&& (!muted && !model_loaded) ==> r == PressOutcome::NoModel
            &&& (!muted && model_loaded) ==> r == if current == RecordingState::Idle {
                PressOutcome::Begin
            } else {
                PressOutcome::Busy
            }
        },
        r == PressOutcome::Begin <==> (current == RecordingState::Idle && !muted && model_loaded),
{
    if current == RecordingState::WarmingUp {
        PressOutcome::PleaseWait
    } else if muted {
        PressOutcome::MicrophoneMuted
    } else if !model_loaded {
        PressOutcome::NoModel
    } else if current == RecordingState::Idle {
        PressOutcome::Begin
    } else {
        PressOutcome::Busy
    }
}

/// The state after a press has been decided.
pub fn state_after_press(current: RecordingState, outcome: PressOutcome) -> (r: RecordingState)
    ensures
        r == (if outcome == PressOutcome::Begin {
            RecordingState::Recording
        } else {
            current
        }),
{
    match outcome {
        PressOutcome::Begin => RecordingState::Recording,
        _ => current,
    }
}

/// Decides a hotkey release: `Some(Transcribing)` when a recording is
/// running (transcription is then started), `None` for a no-op.
pub fn on_release(current: RecordingState) -> (r: Option<RecordingState>)
    ensures
        r == (if current == RecordingState::Recording {
            Some(RecordingState::Transcribing)
        } else {
            None::<RecordingState>
        }),
{
    if current == RecordingState::Recording {
        Some(RecordingState::Transcribing)
    } else {
        None
    }
}

/// The state once transcription has ended, whether it produced text,
/// produced nothing, or failed; also the state after a failed stop.
pub fn on_transcription_done(current: RecordingState) -> (r: RecordingState)
    ensures
        r == RecordingState::Idle,
{
    RecordingState::Idle
}

/// Decides a mute-toggle request from the current state and the recorder's
/// mute flag.
pub fn on_mute_toggle(current: RecordingState, muted: bool) -> (r: ToggleAction)
    ensures
        r == (if in_session(current) {
            ToggleAction::Ignore
        } else if muted {
            ToggleAction::Unmute
        } else {
            ToggleAction::Mute
        }),
{
    match current {
        RecordingState::Recording | RecordingState::Transcribing => ToggleAction::Ignore,
        _ => {
            if muted {
                ToggleAction::Unmute
            } else {
                ToggleAction::Mute
            }
        },
    }
}

/// The state after a toggle action was carried out; `succeeded` says
/// whether the recorder operation returned without error.
pub fn state_after_toggle(current: RecordingState, action: ToggleAction, succeeded: bool) -> (r:
    RecordingState)
    ensures
        r == (match action {
            ToggleAction::Mute => RecordingState::Muted,
            ToggleAction::Unmute => if succeeded {
                RecordingState::Idle
            } else {
                current
            },
            ToggleAction::Ignore => current,
        }),
{
    match action {
        ToggleAction::Mute => RecordingState::Muted,
        ToggleAction::Unmute => {
            if succeeded {
                RecordingState::Idle
            } else {
                current
            }
        },
        ToggleAction::Ignore => current,
    }
}

/// The state when a model (re)load starts its warmup run.
pub fn on_warmup_start(current: RecordingState) -> (r: RecordingState)
    ensures
        r == RecordingState::WarmingUp,
{
    RecordingState::WarmingUp
}

/// The state when warmup completes. `current` must be read at that moment:
/// a state that another transition set meanwhile is kept.
pub fn on_warmup_done(current: RecordingState) -> (r: RecordingState)
    ensures
        r == (if current == RecordingState::WarmingUp {
            RecordingState::Idle
        } else {
            current
        }),
{
    if current == RecordingState::WarmingUp {
        RecordingState::Idle
    } else {
        current
    }
}

} // verus!
