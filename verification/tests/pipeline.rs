use brief::engine::{download_progress_percent, plan_transcription, ModelCache, TranscribePlan};
use brief::errors::RecordingError;
use brief::session::{MicProbe, RecordingSession, SessionState, StopInfo};
use brief::wav::wav_bytes;

#[test]
fn session_start_twice_is_refused() {
    let mut s = RecordingSession::new();
    assert!(!s.is_recording());
    assert_eq!(s.start(MicProbe::Ready { sample_rate: 48000 }, true), Ok(()));
    assert!(s.is_recording());
    assert_eq!(
        s.start(MicProbe::Ready { sample_rate: 48000 }, true),
        Err(RecordingError::AlreadyRecording)
    );
    assert!(s.is_recording());
}

#[test]
fn session_stop_twice_is_refused() {
    let mut s = RecordingSession::new();
    assert_eq!(s.stop(), Err(RecordingError::NotRecording));
    assert_eq!(s.start(MicProbe::Ready { sample_rate: 44100 }, false), Ok(()));
    assert_eq!(
        s.stop(),
        Ok(StopInfo { mic_rate: 44100, sys_active: false })
    );
    assert!(!s.is_recording());
    assert_eq!(s.stop(), Err(RecordingError::NotRecording));
}

#[test]
fn session_restart_after_stop_is_legal() {
    let mut s = RecordingSession::new();
    assert_eq!(s.start(MicProbe::Ready { sample_rate: 48000 }, true), Ok(()));
    s.stop().unwrap();
    assert_eq!(s.start(MicProbe::Ready { sample_rate: 8000 }, false), Ok(()));
    assert_eq!(s.state, SessionState::Recording { mic_rate: 8000, sys_active: false });
}

#[test]
fn session_surfaces_probe_failures() {
    let mut s = RecordingSession::new();
    assert_eq!(s.start(MicProbe::NoDevice, false), Err(RecordingError::NoInputDevice));
    assert!(!s.is_recording());
    assert_eq!(
        s.start(MicProbe::UnsupportedFormat, false),
        Err(RecordingError::UnsupportedSampleFormat)
    );
    assert_eq!(s.start(MicProbe::StreamFailed, true), Err(RecordingError::DeviceStreamFailed));
    assert!(!s.is_recording());
}

#[test]
fn empty_audio_transcribes_to_empty_without_model() {
    // Both buffers empty: an empty transcript, even with no model present.
    let mic: Vec<i16> = Vec::new();
    let sys: Vec<i32> = Vec::new();
    let r = plan_transcription(&mic, 48000, &sys, false);
    assert!(matches!(r, Ok(TranscribePlan::EmptyTranscript)));
}

#[test]
fn missing_model_is_an_error_on_nonempty_audio() {
    let mic: Vec<i16> = vec![1, 2, 3];
    let sys: Vec<i32> = Vec::new();
    let r = plan_transcription(&mic, 16000, &sys, false);
    assert!(matches!(r, Err(RecordingError::ModelNotFound)));
}

#[test]
fn present_model_gets_the_mixed_buffer() {
    let mic: Vec<i16> = vec![16384, -16384];
    let sys: Vec<i32> = Vec::new();
    match plan_transcription(&mic, 16000, &sys, true) {
        Ok(TranscribePlan::RunModel { audio }) => {
            assert_eq!(audio, vec![16384, -16384]);
        }
        _ => panic!("expected an inference plan"),
    }
}

#[test]
fn model_cache_loads_once() {
    let mut c = ModelCache::new();
    assert!(c.needs_load());
    c.mark_loaded();
    assert!(!c.needs_load());
    c.mark_loaded();
    assert!(!c.needs_load());
}

#[test]
fn download_percent_values() {
    assert_eq!(download_progress_percent(50, 200), 25);
    assert_eq!(download_progress_percent(3, 7), 42);
    assert_eq!(download_progress_percent(7, 7), 100);
    assert_eq!(download_progress_percent(9, 7), 100);
    assert_eq!(download_progress_percent(0, 7), 0);
}

#[test]
fn wav_bytes_exact_layout() {
    let samples: Vec<i16> = vec![258, -2];
    let bytes = wav_bytes(&samples, 8000);
    let expected: Vec<u8> = vec![
        0x52, 0x49, 0x46, 0x46, // "RIFF"
        40, 0, 0, 0, // 36 + 4 data bytes
        0x57, 0x41, 0x56, 0x45, // "WAVE"
        0x66, 0x6d, 0x74, 0x20, // "fmt "
        16, 0, 0, 0, // format chunk length
        1, 0, // PCM
        1, 0, // mono
        0x40, 0x1f, 0, 0, // 8000 Hz
        0x80, 0x3e, 0, 0, // byte rate 16000
        2, 0, // bytes per frame
        16, 0, // bits per sample
        0x64, 0x61, 0x74, 0x61, // "data"
        4, 0, 0, 0, // data length
        0x02, 0x01, // 258
        0xfe, 0xff, // -2
    ];
    assert_eq!(bytes, expected);
}

#[test]
fn empty_recording_still_makes_a_valid_wav() {
    let samples: Vec<i16> = Vec::new();
    let bytes = wav_bytes(&samples, 44100);
    assert_eq!(bytes.len(), 44);
    assert_eq!(&bytes[0..4], b"RIFF");
    assert_eq!(&bytes[8..12], b"WAVE");
    assert_eq!(&bytes[36..40], b"data");
}
