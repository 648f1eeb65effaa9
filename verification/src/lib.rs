//! Core of a microphone capture pipeline: a capture session that
//! accumulates mono samples while recording, and an encoder that
//! serialises the finished buffer into a PCM16 WAV byte stream.

pub mod encoder;
pub mod errors;
pub mod recorder;
