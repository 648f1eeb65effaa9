//! The error taxonomy of the capture pipeline. Every failure of the
//! session or the encoder is one of these variants; each carries a fixed
//! descriptive message for the caller.

use vstd::prelude::*;

verus! {

/// A failure of a session operation or of the encoder.
#[derive(Clone, Copy, Debug, PartialEq, Eq, Structural)]
pub enum AudioError {
    /// `start` was called while a recording was already active.
    AlreadyRecording,
    /// `stop` was called while no recording was active.
    NotRecording,
    /// No input device exists.
    DeviceUnavailable,
    /// No floating-point input configuration could be found.
    UnsupportedFormat,
    /// The hardware connection could not be opened or started.
    StreamError,
    /// The WAV writer could not be constructed or finalized.
    EncodingError,
}

impl AudioError {
    /// The descriptive message surfaced to the caller for this error.
    pub fn message(&self) -> (r: &'static str)
        ensures
            self is AlreadyRecording ==> r@ == "Already recording"@,
            self is NotRecording ==> r@ == "Not recording"@,
            self is DeviceUnavailable ==> r@ == "No input device available"@,
            self is UnsupportedFormat ==> r@ == "No suitable audio config found"@,
            self is StreamError ==> r@ == "Audio stream error"@,
            self is EncodingError ==> r@ == "Failed to encode WAV data"@,
    {
        match self {
            AudioError::AlreadyRecording => "Already recording",
            AudioError::NotRecording => "Not recording",
            AudioError::DeviceUnavailable => "No input device available",
            AudioError::UnsupportedFormat => "No suitable audio config found",
            AudioError::StreamError => "Audio stream error",
            AudioError::EncodingError => "Failed to encode WAV data",
        }
    }
}

} // verus!
