use crate::errors::RecordingError;
use vstd::prelude::*;

verus! {

/// Outcome of probing and opening the default microphone capture stream.
/// The device layer reports it; the session turns it into a state change
/// or an error.
#[derive(Clone, Copy, Debug, PartialEq, Eq, Structural)]
pub enum MicProbe {
    /// No default input device was found.
    NoDevice,
    /// The negotiated encoding is neither 16-bit integer nor 32-bit float.
    UnsupportedFormat,
    /// The capture stream could not be built or started.
    StreamFailed,
    /// Capture is running at the device's negotiated sample rate.
    Ready { sample_rate: u32 },
}

/// A session is either idle or holds exactly one active capture pair:
/// the microphone (required) and system audio (optional; `sys_active`
/// records whether it started).
#[derive(Clone, Copy, Debug, PartialEq, Eq, Structural)]
pub enum SessionState {
    Idle,
    Recording { mic_rate: u32, sys_active: bool },
}

/// What a successful stop hands back to the caller: which sources were
/// live and the microphone's negotiated rate, so the collected buffers
/// can be resampled.
#[derive(Clone, Copy, Debug, PartialEq, Eq, Structural)]
pub struct StopInfo {
    pub mic_rate: u32,
    pub sys_active: bool,
}

/// The start transition: refused while recording; otherwise the probe
/// outcome decides between an error and entering `Recording`.
pub open spec fn start_transition(
    s: SessionState,
    mic: MicProbe,
    sys_started: bool,
) -> (SessionState, Result<(), RecordingError>) {
    if s is Recording {
        (s, Err(RecordingError::AlreadyRecording))
    } else {
        match mic {
            MicProbe::NoDevice => (s, Err(RecordingError::NoInputDevice)),
            MicProbe::UnsupportedFormat => (s, Err(RecordingError::UnsupportedSampleFormat)),
            MicProbe::StreamFailed => (s, Err(RecordingError::DeviceStreamFailed)),
            MicProbe::Ready { sample_rate } => (
                SessionState::Recording { mic_rate: sample_rate, sys_active: sys_started },
                Ok(()),
            ),
        }
    }
}

/// The stop transition: refused while idle; otherwise the slot is emptied
/// and its contents are returned.
pub open spec fn stop_transition(s: SessionState) -> (SessionState, Result<
    StopInfo,
    RecordingError,
>) {
    match s {
        SessionState::Idle => (s, Err(RecordingError::NotRecording)),
        SessionState::Recording { mic_rate, sys_active } => (
            SessionState::Idle,
            Ok(StopInfo { mic_rate, sys_active }),
        ),
    }
}

/// The single mutable slot that owns at most one active recording.
/// Occupancy of the slot is the sole source of truth for "is recording".
pub struct RecordingSession {
    pub state: SessionState,
}

impl RecordingSession {
    pub fn new() -> (s: Self)
        ensures
            s.state == SessionState::Idle,
    {
        RecordingSession { state: SessionState::Idle }
    }

    pub fn is_recording(&self) -> (r: bool)
        ensures
            r == (self.state is Recording),
    {
        matches!(self.state, SessionState::Recording { .. })
    }

    /// Move from `Idle` to `Recording` when the microphone probe succeeded;
    /// report the exact failure otherwise. A second start without an
    /// intervening stop is refused before the probe is even considered.
    pub fn start(&mut self, mic: MicProbe, sys_started: bool) -> (r: Result<(), RecordingError>)
        ensures
            (final(self).state, r) == start_transition(old(self).state, mic, sys_started),
            old(self).state is Recording ==> final(self).state == old(self).state && r == Err::<
                (),
                RecordingError,
            >(RecordingError::AlreadyRecording),
            r is Ok <==> old(self).state is Idle && mic is Ready,
    {
        match self.state {
            SessionState::Recording { .. } => Err(RecordingError::AlreadyRecording),
            SessionState::Idle => match mic {
                MicProbe::NoDevice => Err(RecordingError::NoInputDevice),
                MicProbe::UnsupportedFormat => Err(RecordingError::UnsupportedSampleFormat),
                MicProbe::StreamFailed => Err(RecordingError::DeviceStreamFailed),
                MicProbe::Ready { sample_rate } => {
                    self.state = SessionState::Recording {
                        mic_rate: sample_rate,
                        sys_active: sys_started,
                    };
                    Ok(())
                },
            },
        }
    }

    /// Empty the slot and hand its contents back; refused while idle.
    /// After a successful stop the session is immediately ready for a new
    /// start.
    pub fn stop(&mut self) -> (r: Result<StopInfo, RecordingError>)
        ensures
            (final(self).state, r) == stop_transition(old(self).state),
            old(self).state is Idle ==> final(self).state == old(self).state && r == Err::<
                StopInfo,
                RecordingError,
            >(RecordingError::NotRecording),
            r is Ok <==> old(self).state is Recording,
            r is Ok ==> final(self).state is Idle,
    {
        match self.state {
            SessionState::Idle => Err(RecordingError::NotRecording),
            SessionState::Recording { mic_rate, sys_active } => {
                self.state = SessionState::Idle;
                Ok(StopInfo { mic_rate, sys_active })
            },
        }
    }
}

/// Law: the slot holds at most one recording. Whatever a successful start
/// observed, a second start without an intervening stop is refused with
/// `AlreadyRecording`.
pub proof fn lemma_start_is_exclusive(
    s: SessionState,
    m1: MicProbe,
    y1: bool,
    m2: MicProbe,
    y2: bool,
)
    requires
        start_transition(s, m1, y1).1 is Ok,
    ensures
        start_transition(start_transition(s, m1, y1).0, m2, y2).1 == Err::<
            (),
            RecordingError,
        >(RecordingError::AlreadyRecording),
{
}

/// Law: a stop empties the slot, so a second stop without an intervening
/// start is refused with `NotRecording`.
pub proof fn lemma_stop_is_exclusive(s: SessionState)
    requires
        stop_transition(s).1 is Ok,
    ensures
        stop_transition(stop_transition(s).0).1 == Err::<
            StopInfo,
            RecordingError,
        >(RecordingError::NotRecording),
{
}

} // verus!
