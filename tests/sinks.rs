use scribe::settings::OutputMode;
use scribe::sinks::{delivery_notice, muted_notice, toggle_notice, tray_icon_file, tray_tooltip};
use scribe::state::RecordingState;

#[test]
fn delivery_notices() {
    assert_eq!(delivery_notice(OutputMode::Copy, true), "Copied and pasted");
    assert_eq!(delivery_notice(OutputMode::Type, true), "Transcription complete");
    assert_eq!(delivery_notice(OutputMode::Copy, false), "Failed to copy and paste");
    assert_eq!(delivery_notice(OutputMode::Type, false), "Failed to type text");
}

#[test]
fn mute_notices() {
    assert_eq!(muted_notice("F4"), "Microphone is muted. Press F4 to unmute.");
    assert_eq!(toggle_notice(RecordingState::Muted), "Microphone muted");
    assert_eq!(toggle_notice(RecordingState::Idle), "Microphone enabled");
}

#[test]
fn tooltips_and_icons() {
    assert_eq!(tray_tooltip(RecordingState::Idle, "F2", "F4"), "Scribe - Ready (Press F2 to record)");
    assert_eq!(tray_tooltip(RecordingState::Muted, "F2", "F4"), "Scribe - Muted (Press F4 to unmute)");
    assert_eq!(tray_tooltip(RecordingState::Recording, "F2", "F4"), "Scribe - Recording...");
    assert_eq!(tray_tooltip(RecordingState::Transcribing, "F2", "F4"), "Scribe - Transcribing...");
    assert_eq!(tray_tooltip(RecordingState::WarmingUp, "F2", "F4"), "Scribe - Loading model...");
    assert_eq!(tray_icon_file(RecordingState::Idle), "icons/tray-idle.png");
    assert_eq!(tray_icon_file(RecordingState::WarmingUp), "icons/tray-transcribing.png");
    assert_eq!(tray_icon_file(RecordingState::Muted), "icons/tray-muted.png");
    assert_eq!(tray_icon_file(RecordingState::Recording), "icons/tray-recording.png");
}
