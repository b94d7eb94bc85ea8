//! User settings as the core reads them, and the hotkeys they ask for.
use crate::transcribe::Language;
use vstd::prelude::*;

verus! {

/// How a transcript reaches the foreground application.
#[derive(Debug, Clone, Copy, PartialEq, Eq, Structural)]
pub enum OutputMode {
    /// Typed as keystrokes.
    Type,
    /// Put on the clipboard and pasted.
    Copy,
}

/// What a registered hotkey does.
#[derive(Debug, Clone, Copy, PartialEq, Eq, Structural)]
pub enum HotkeyRole {
    /// Hold to record, release to transcribe in the language.
    Record(Language),
    /// Toggles the microphone.
    MuteToggle,
}

/// Settings with their defaults filled in.
#[derive(Debug, Clone)]
pub struct AppSettings {
    pub hotkey_en: String,
    pub hotkey_de: Option<String>,
    pub hotkey_mute: String,
    pub model_path: Option<String>,
    pub audio_device: Option<String>,
    pub output_mode: OutputMode,
}

/// A stored string, or `default` when none is stored.
pub open spec fn or_default(stored: Option<String>, default: Seq<char>) -> Seq<char> {
    match stored {
        Some(s) => s@,
        None => default,
    }
}

/// Output mode named by a stored string: `"copy"` selects copying, anything
/// else (or nothing) typing.
pub open spec fn output_mode_of(stored: Option<String>) -> OutputMode {
    match stored {
        Some(s) => if s@ == "copy"@ {
            OutputMode::Copy
        } else {
            OutputMode::Type
        },
        None => OutputMode::Type,
    }
}

/// The German hotkey is registered only when it is set and not empty.
pub open spec fn has_german(hotkey_de: Option<String>) -> bool {
    match hotkey_de {
        Some(h) => h@.len() > 0,
        None => false,
    }
}

impl AppSettings {
    /// Settings from stored values; the English hotkey defaults to `F2`,
    /// the mute hotkey to `F4`.
    pub fn from_stored(
        hotkey: Option<String>,
        hotkey_de: Option<String>,
        hotkey_mute: Option<String>,
        model_path: Option<String>,
        audio_device: Option<String>,
        output_mode: Option<String>,
    ) -> (r: AppSettings)
        ensures
            r.hotkey_en@ == or_default(hotkey, "F2"@),
            r.hotkey_de == hotkey_de,
            r.hotkey_mute@ == or_default(hotkey_mute, "F4"@),
            r.model_path == model_path,
            r.audio_device == audio_device,
            r.output_mode == output_mode_of(output_mode),
    {
        proof {
            reveal_strlit("F2");
            reveal_strlit("F4");
            reveal_strlit("copy");
        }
        let hotkey_en = match hotkey {
            Some(h) => h,
            None => "F2".to_owned(),
        };
        let hotkey_mute = match hotkey_mute {
            Some(h) => h,
            None => "F4".to_owned(),
        };
        let mode = match output_mode {
            Some(m) => {
                if m == "copy".to_owned() {
                    OutputMode::Copy
                } else {
                    OutputMode::Type
                }
            },
            None => OutputMode::Type,
        };
        AppSettings {
            hotkey_en,
            hotkey_de,
            hotkey_mute,
            model_path,
            audio_device,
            output_mode: mode,
        }
    }

    /// The hotkeys to register, in order: English recording, German
    /// recording when configured, mute toggle.
    pub fn hotkey_plan(&self) -> (r: Vec<(String, HotkeyRole)>)
        ensures
            r@.len() == if has_german(self.hotkey_de) {
                3int
            } else {
                2int
            },
            r@[0].0@ == self.hotkey_en@,
            r@[0].1 == HotkeyRole::Record(Language::English),
            has_german(self.hotkey_de) ==> r@[1].0@ == self.hotkey_de->0@ && r@[1].1
                == HotkeyRole::Record(Language::German),
            r@.last().0@ == self.hotkey_mute@,
            r@.last().1 == HotkeyRole::MuteToggle,
    {
        let mut plan: Vec<(String, HotkeyRole)> = Vec::new();
        plan.push((self.hotkey_en.clone(), HotkeyRole::Record(Language::English)));
        if let Some(h) = &self.hotkey_de {
            if !h.as_str().is_empty() {
                plan.push((h.clone(), HotkeyRole::Record(Language::German)));
            }
        }
        plan.push((self.hotkey_mute.clone(), HotkeyRole::MuteToggle));
        plan
    }
}

} // verus!
