//! Push-to-talk dictation core: device resolution, sample capture buffering,
//! chunked resampling, the recorder's open/closed lifecycle, the
//! application's recording state machine, and transcription records.

pub mod capture;
pub mod control;
pub mod device;
pub mod error;
pub mod history;
pub mod overlay;
pub mod recorder;
pub mod resample;
pub mod settings;
pub mod sinks;
pub mod state;
pub mod text;
pub mod transcribe;
