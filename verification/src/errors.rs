use vstd::prelude::*;

verus! {

/// Failures surfaced by the recording and transcription pipeline.
#[derive(Clone, Copy, Debug, PartialEq, Eq, Structural)]
pub enum RecordingError {
    /// `start` was called while a recording is already in progress.
    AlreadyRecording,
    /// `stop` or `collect` was called while no recording is in progress.
    NotRecording,
    /// No default input device is available.
    NoInputDevice,
    /// The input device negotiated a sample encoding other than 16-bit
    /// integer or 32-bit float.
    UnsupportedSampleFormat,
    /// The capture stream could not be built or started.
    DeviceStreamFailed,
    /// Transcription was requested but the model binary is not present.
    ModelNotFound,
    /// The model binary exists but could not be loaded.
    ModelLoadFailed,
    /// Provisioning the model binary failed.
    DownloadFailed,
}

} // verus!
