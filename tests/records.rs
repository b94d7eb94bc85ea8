use scribe::history::{duration_ms, word_count, Transcription, MAX_HISTORY_SIZE};
use scribe::overlay::{overlay_position, OVERLAY_HEIGHT_RECORDING, OVERLAY_HEIGHT_WARMUP};
use scribe::settings::{AppSettings, HotkeyRole, OutputMode};
use scribe::text::{ascii_punct, white_space};
use scribe::transcribe::{transcript_text, Language};

#[test]
fn record_fields() {
    let t = Transcription::new(7, "Hello world", "en", 16000, "2024-01-01T00:00:00Z".to_string());
    assert_eq!(t.id, 7);
    assert_eq!(t.text, "Hello world");
    assert_eq!(t.language, "en");
    assert_eq!(t.duration_ms, 1000);
    assert_eq!(t.word_count, 2);
    assert_eq!(t.created_at, "2024-01-01T00:00:00Z");
    assert_eq!(MAX_HISTORY_SIZE, 50);
}

#[test]
fn durations() {
    assert_eq!(duration_ms(16000), 1000);
    assert_eq!(duration_ms(8000), 500);
    assert_eq!(duration_ms(15), 0);
    assert_eq!(duration_ms(0), 0);
}

#[test]
fn word_counts() {
    assert_eq!(word_count(""), 0);
    assert_eq!(word_count("Test"), 1);
    assert_eq!(word_count("  Hello,world!  "), 2);
    assert_eq!(word_count("it's a test..."), 4);
    assert_eq!(word_count("Grüße\u{3000}aus\u{a0}Köln"), 3);
    assert_eq!(word_count("-- ... !!"), 0);
}

#[test]
fn character_classes() {
    assert!(white_space('\u{2029}'));
    assert!(!white_space('\u{200b}'));
    assert!(ascii_punct('~'));
    assert!(!ascii_punct('ä'));
}

#[test]
fn transcript_joins_and_trims() {
    let segs = vec![" Hello".to_string(), " world. ".to_string(), "\n".to_string()];
    assert_eq!(transcript_text(&segs), "Hello world.");
    assert_eq!(transcript_text(&vec!["   ".to_string()]), "");
    assert_eq!(transcript_text(&Vec::new()), "");
}

#[test]
fn language_codes() {
    assert_eq!(Language::English.code(), "en");
    assert_eq!(Language::German.code(), "de");
}

#[test]
fn overlay_bottom_centre() {
    assert_eq!(overlay_position(0, 0, 1920, 1080, OVERLAY_HEIGHT_RECORDING), Some((860, 970)));
    assert_eq!(overlay_position(1920, -200, 1280, 800, OVERLAY_HEIGHT_WARMUP), Some((2460, 470)));
    assert_eq!(overlay_position(0, 0, 101, 200, 50), Some((-49, 90)));
    assert_eq!(overlay_position(i32::MAX, 0, 4000, 200, 50), None);
    assert_eq!(overlay_position(0, i32::MIN, 1920, 0, 50), None);
}

#[test]
fn settings_defaults_and_hotkeys() {
    let s = AppSettings::from_stored(None, None, None, None, None, None);
    assert_eq!(s.hotkey_en, "F2");
    assert_eq!(s.hotkey_mute, "F4");
    assert_eq!(s.output_mode, OutputMode::Type);
    let plan = s.hotkey_plan();
    assert_eq!(plan.len(), 2);
    assert_eq!(plan[0], ("F2".to_string(), HotkeyRole::Record(Language::English)));
    assert_eq!(plan[1], ("F4".to_string(), HotkeyRole::MuteToggle));

    let s = AppSettings::from_stored(
        Some("F5".to_string()),
        Some("F6".to_string()),
        Some("F7".to_string()),
        Some("model.bin".to_string()),
        Some("USB Mic".to_string()),
        Some("copy".to_string()),
    );
    assert_eq!(s.output_mode, OutputMode::Copy);
    assert_eq!(s.audio_device.as_deref(), Some("USB Mic"));
    let plan = s.hotkey_plan();
    assert_eq!(plan.len(), 3);
    assert_eq!(plan[1], ("F6".to_string(), HotkeyRole::Record(Language::German)));
    assert_eq!(plan[2], ("F7".to_string(), HotkeyRole::MuteToggle));

    let s = AppSettings::from_stored(None, Some(String::new()), None, None, None, Some("type".to_string()));
    assert_eq!(s.hotkey_plan().len(), 2);
    assert_eq!(s.output_mode, OutputMode::Type);
}
