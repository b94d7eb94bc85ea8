//! Error kinds of the library. Each carries a human-readable detail.
use vstd::prelude::*;

verus! {

/// Errors raised by the recorder, the resampler and the collaborators
/// around them.
#[derive(Debug, Clone)]
pub enum Error {
    /// Device or stream open, or capture I/O failure.
    Audio(String),
    /// The inference service failed.
    Transcription(String),
    /// Keystroke injection failed.
    Input(String),
    /// The keystroke injector could not be created.
    InputCreation(String),
    /// A hotkey could not be registered.
    Hotkey(String),
    /// Resampling transform construction or processing failed.
    Resample(String),
    /// Clipboard write or paste failed.
    Clipboard(String),
    /// History storage failed.
    Database(String),
}

/// Shorthand for results whose error is the library's `Error`.
pub type Result<T> = core::result::Result<T, Error>;

} // verus!
