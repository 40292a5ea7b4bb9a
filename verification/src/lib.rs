//! Core logic of an offline meeting-transcription tool: PCM resampling to a
//! canonical 16 kHz rate, mixing of microphone and system-audio streams,
//! channel downmixing, WAV framing, the recording-session state machine, and
//! transcription planning. Audio devices, threads, files and the speech model
//! live outside this crate; the functions here work on plain sample buffers.

pub mod capture;
pub mod clock;
pub mod engine;
pub mod enhance;
pub mod errors;
pub mod mix;
pub mod notes;
pub mod paths;
pub mod resample;
pub mod sample;
pub mod session;
pub mod text;
pub mod wav;
