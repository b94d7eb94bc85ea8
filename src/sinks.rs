//! What the notification and tray sinks are handed: notice bodies, tray
//! tooltips and icon files, each a function of state and settings.
use crate::settings::OutputMode;
use crate::state::RecordingState;
use vstd::prelude::*;

verus! {

/// Notice after a transcript was handed to the output sink.
pub open spec fn delivery_notice_spec(mode: OutputMode, succeeded: bool) -> Seq<char> {
    match (mode, succeeded) {
        (OutputMode::Copy, true) => "Copied and pasted"@,
        (OutputMode::Type, true) => "Transcription complete"@,
        (OutputMode::Copy, false) => "Failed to copy and paste"@,
        (OutputMode::Type, false) => "Failed to type text"@,
    }
}

/// Notice for a press while the microphone is muted.
pub open spec fn muted_notice_spec(hotkey_mute: Seq<char>) -> Seq<char> {
    "Microphone is muted. Press "@ + hotkey_mute + " to unmute."@
}

/// Notice after a mute toggle left the state `next`.
pub open spec fn toggle_notice_spec(next: RecordingState) -> Seq<char> {
    if next == RecordingState::Muted {
        "Microphone muted"@
    } else {
        "Microphone enabled"@
    }
}

/// Tray tooltip for a state.
pub open spec fn tooltip_spec(state: RecordingState, hotkey_en: Seq<char>, hotkey_mute: Seq<char>) -> Seq<
    char,
> {
    match state {
        RecordingState::Idle => "Scribe - Ready (Press "@ + hotkey_en + " to record)"@,
        RecordingState::Recording => "Scribe - Recording..."@,
        RecordingState::Transcribing => "Scribe - Transcribing..."@,
        RecordingState::Muted => "Scribe - Muted (Press "@ + hotkey_mute + " to unmute)"@,
        RecordingState::WarmingUp => "Scribe - Loading model..."@,
    }
}

/// Tray icon resource for a state; warmup shares the transcribing icon.
pub open spec fn icon_file_spec(state: RecordingState) -> Seq<char> {
    match state {
        RecordingState::Idle => "icons/tray-idle.png"@,
        RecordingState::Recording => "icons/tray-recording.png"@,
        RecordingState::Transcribing => "icons/tray-transcribing.png"@,
        RecordingState::WarmingUp => "icons/tray-transcribing.png"@,
        RecordingState::Muted => "icons/tray-muted.png"@,
    }
}

/// Notice body after delivering a transcript in `mode`.
pub fn delivery_notice(mode: OutputMode, succeeded: bool) -> (r: &'static str)
    ensures
        r@ == delivery_notice_spec(mode, succeeded),
{
    proof {
        reveal_strlit("Copied and pasted");
        reveal_strlit("Transcription complete");
        reveal_strlit("Failed to copy and paste");
        reveal_strlit("Failed to type text");
    }
    match (mode, succeeded) {
        (OutputMode::Copy, true) => "Copied and pasted",
        (OutputMode::Type, true) => "Transcription complete",
        (OutputMode::Copy, false) => "Failed to copy and paste",
        (OutputMode::Type, false) => "Failed to type text",
    }
}

/// `head`, then `middle`, then `tail`.
fn framed(head: &str, middle: &str, tail: &str) -> (r: String)
    ensures
        r@ == head@ + middle@ + tail@,
{
    let mut s = head.to_owned();
    s.append(middle);
    s.append(tail);
    s
}

/// Notice body for a press while the microphone is muted.
pub fn muted_notice(hotkey_mute: &str) -> (r: String)
    ensures
        r@ == muted_notice_spec(hotkey_mute@),
{
    proof {
        reveal_strlit("Microphone is muted. Press ");
        reveal_strlit(" to unmute.");
    }
    framed("Microphone is muted. Press ", hotkey_mute, " to unmute.")
}

/// Notice body after a mute toggle left the state `next`.
pub fn toggle_notice(next: RecordingState) -> (r: &'static str)
    ensures
        r@ == toggle_notice_spec(next),
{
    proof {
        reveal_strlit("Microphone muted");
        reveal_strlit("Microphone enabled");
    }
    if next == RecordingState::Muted {
        "Microphone muted"
    } else {
        "Microphone enabled"
    }
}

/// Tray tooltip for `state`, naming the hotkeys where they help.
pub fn tray_tooltip(state: RecordingState, hotkey_en: &str, hotkey_mute: &str) -> (r: String)
    ensures
        r@ == tooltip_spec(state, hotkey_en@, hotkey_mute@),
{
    proof {
        reveal_strlit("Scribe - Ready (Press ");
        reveal_strlit(" to record)");
        reveal_strlit("Scribe - Recording...");
        reveal_strlit("Scribe - Transcribing...");
        reveal_strlit("Scribe - Muted (Press ");
        reveal_strlit(" to unmute)");
        reveal_strlit("Scribe - Loading model...");
    }
    match state {
        RecordingState::Idle => framed("Scribe - Ready (Press ", hotkey_en, " to record)"),
        RecordingState::Recording => "Scribe - Recording...".to_owned(),
        RecordingState::Transcribing => "Scribe - Transcribing...".to_owned(),
        RecordingState::Muted => framed("Scribe - Muted (Press ", hotkey_mute, " to unmute)"),
        RecordingState::WarmingUp => "Scribe - Loading model...".to_owned(),
    }
}

/// Tray icon resource for `state`.
pub fn tray_icon_file(state: RecordingState) -> (r: &'static str)
    ensures
        r@ == icon_file_spec(state),
{
    proof {
        reveal_strlit("icons/tray-idle.png");
        reveal_strlit("icons/tray-recording.png");
        reveal_strlit("icons/tray-transcribing.png");
        reveal_strlit("icons/tray-muted.png");
    }
    match state {
        RecordingState::Idle => "icons/tray-idle.png",
        RecordingState::Recording => "icons/tray-recording.png",
        RecordingState::Transcribing | RecordingState::WarmingUp => "icons/tray-transcribing.png",
        RecordingState::Muted => "icons/tray-muted.png",
    }
}

} // verus!
