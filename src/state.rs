//! The process-wide recording state and its lock-free holder.
use std::sync::atomic::{AtomicU8, Ordering};
use vstd::prelude::*;

verus! {

/// Application state, shown by the tray and the overlay.
#[derive(Debug, Clone, Copy, PartialEq, Eq, Structural)]
pub enum RecordingState {
    Idle,
    Recording,
    Transcribing,
    Muted,
    WarmingUp,
}

/// The byte that stands for a state inside the atomic holder.
pub open spec fn code_of(s: RecordingState) -> u8 {
    match s {
        RecordingState::Idle => 0,
        RecordingState::Recording => 1,
        RecordingState::Transcribing => 2,
        RecordingState::Muted => 3,
        RecordingState::WarmingUp => 4,
    }
}

/// The state a byte decodes to; unknown bytes read as `Idle`.
pub open spec fn state_of(v: u8) -> RecordingState {
    if v == 1 {
        RecordingState::Recording
    } else if v == 2 {
        RecordingState::Transcribing
    } else if v == 3 {
        RecordingState::Muted
    } else if v == 4 {
        RecordingState::WarmingUp
    } else {
        RecordingState::Idle
    }
}

impl RecordingState {
    /// The byte stored for this state.
    pub fn code(self) -> (r: u8)
        ensures
            r == code_of(self),
    {
        match self {
            RecordingState::Idle => 0,
            RecordingState::Recording => 1,
            RecordingState::Transcribing => 2,
            RecordingState::Muted => 3,
            RecordingState::WarmingUp => 4,
        }
    }

    /// Decodes a stored byte.
    pub fn from_code(v: u8) -> (r: RecordingState)
        ensures
            r == state_of(v),
    {
        match v {
            1 => RecordingState::Recording,
            2 => RecordingState::Transcribing,
            3 => RecordingState::Muted,
            4 => RecordingState::WarmingUp,
            _ => RecordingState::Idle,
        }
    }
}

impl From<u8> for RecordingState {
    fn from(v: u8) -> (r: RecordingState)
        ensures
            r == state_of(v),
    {
        RecordingState::from_code(v)
    }
}

impl vstd::std_specs::convert::FromSpecImpl<u8> for RecordingState {
    open spec fn obeys_from_spec() -> bool {
        true
    }

    open spec fn from_spec(v: u8) -> RecordingState {
        state_of(v)
    }
}

/// Storing a state and reading it back yields the same state.
pub proof fn lemma_code_round_trip(s: RecordingState)
    ensures
        state_of(code_of(s)) == s,
{
}

/// Thread-safe holder of the current `RecordingState`. Other threads may
/// change the value at any time, so a read promises only a well-formed state.
pub struct AppStateHolder {
    pub state: AtomicU8,
}

impl AppStateHolder {
    /// A holder that starts out `Idle`.
    pub fn new() -> (r: AppStateHolder) {
        AppStateHolder { state: AtomicU8::new(RecordingState::Idle.code()) }
    }

    /// Publishes `s` as the current state.
    pub fn set(&self, s: RecordingState) {
        self.state.store(s.code(), Ordering::SeqCst);
    }

    /// Reads the current state; whatever byte is found decodes to a state.
    pub fn get(&self) -> (r: RecordingState) {
        RecordingState::from_code(self.state.load(Ordering::SeqCst))
    }
}

impl Default for AppStateHolder {
    fn default() -> (r: AppStateHolder) {
        AppStateHolder::new()
    }
}

} // verus!
