use crate::errors::RecordingError;
use crate::mix::{mix_spec, mix_streams};
use crate::resample::{resample_q15_to_16k, resample_spec, resample_to_16k, widened};
use crate::sample::TARGET_RATE;
use vstd::arithmetic::div_mod::{lemma_div_is_ordered, lemma_div_multiples_vanish};
use vstd::prelude::*;

verus! {

/// The rate the system-audio capture surface delivers at, in Hz.
pub const SYSTEM_AUDIO_RATE: u32 = 48000;

/// The 16 kHz mono buffer handed to inference: each source resampled to
/// the canonical rate, then mixed.
pub open spec fn mixdown_spec(mic: Seq<i16>, mic_rate: nat, sys: Seq<i32>) -> Seq<i32> {
    mix_spec(
        resample_spec(widened(mic), mic_rate),
        resample_spec(sys, SYSTEM_AUDIO_RATE as nat),
    )
}

/// Resample the collected microphone PCM and the 48 kHz system-audio
/// stream to 16 kHz and mix them into one mono buffer.
pub fn mixdown(mic: &Vec<i16>, mic_rate: u32, sys: &Vec<i32>) -> (out: Vec<i32>)
    requires
        1 <= mic_rate,
        mic@.len() * (TARGET_RATE as nat) <= usize::MAX as nat,
        sys@.len() * (TARGET_RATE as nat) <= usize::MAX as nat,
    ensures
        out@ == mixdown_spec(mic@, mic_rate as nat, sys@),
{
    let mic16 = resample_to_16k(mic, mic_rate);
    let sys16 = resample_q15_to_16k(sys, SYSTEM_AUDIO_RATE);
    mix_streams(&mic16, &sys16)
}

/// What a stop-and-transcribe call does next.
pub enum TranscribePlan {
    /// Both sources were silent: the transcript is empty and the model is
    /// never touched.
    EmptyTranscript,
    /// Run one inference pass over this mixed 16 kHz mono buffer.
    RunModel { audio: Vec<i32> },
}

/// Decide a transcription request. Empty audio short-circuits to an empty
/// transcript without touching the model; otherwise the model binary must
/// be present, and the mixed buffer goes to inference.
pub fn plan_transcription(
    mic: &Vec<i16>,
    mic_rate: u32,
    sys: &Vec<i32>,
    model_present: bool,
) -> (r: Result<TranscribePlan, RecordingError>)
    requires
        1 <= mic_rate,
        mic@.len() * (TARGET_RATE as nat) <= usize::MAX as nat,
        sys@.len() * (TARGET_RATE as nat) <= usize::MAX as nat,
    ensures
        r is Ok <==> (mic@.len() == 0 && sys@.len() == 0) || model_present,
        mic@.len() == 0 && sys@.len() == 0 ==> r matches Ok(TranscribePlan::EmptyTranscript),
        (mic@.len() > 0 || sys@.len() > 0) && model_present ==> (r matches Ok(
            TranscribePlan::RunModel { audio },
        ) && audio@ == mixdown_spec(mic@, mic_rate as nat, sys@)),
        (mic@.len() > 0 || sys@.len() > 0) && !model_present ==> (r matches Err(e) && e
            == RecordingError::ModelNotFound),
{
    if mic.len() == 0 && sys.len() == 0 {
        return Ok(TranscribePlan::EmptyTranscript);
    }
    if !model_present {
        return Err(RecordingError::ModelNotFound);
    }
    Ok(TranscribePlan::RunModel { audio: mixdown(mic, mic_rate, sys) })
}

/// Tracks the lazily-created, process-lifetime model instance: whether the
/// expensive construction has happened yet. The instance itself lives with
/// the inference engine outside this crate; nothing here ever unloads it.
pub struct ModelCache {
    pub loaded: bool,
}

impl ModelCache {
    pub fn new() -> (c: Self)
        ensures
            !c.loaded,
    {
        ModelCache { loaded: false }
    }

    /// True exactly when construction is still owed: the model is built at
    /// most once per process lifetime.
    pub fn needs_load(&self) -> (r: bool)
        ensures
            r == !self.loaded,
    {
        !self.loaded
    }

    /// Record that the model instance was built and cached.
    pub fn mark_loaded(&mut self)
        ensures
            final(self).loaded,
    {
        self.loaded = true;
    }
}

/// The progress percentage reported while the model binary streams in:
/// `downloaded * 100 / total`, capped at 100 against a short content
/// length.
pub fn download_progress_percent(downloaded: u64, total: u64) -> (p: u8)
    requires
        1 <= total,
    ensures
        downloaded <= total ==> p as int == (downloaded as int * 100) / (total as int),
        downloaded > total ==> p == 100,
{
    proof {
        if downloaded <= total {
            lemma_div_is_ordered(downloaded as int * 100, total as int * 100, total as int);
        } else {
            lemma_div_is_ordered(total as int * 100, downloaded as int * 100, total as int);
        }
        lemma_div_multiples_vanish(100, total as int);
    }
    let q: u128 = ((downloaded as u128) * 100) / (total as u128);
    if q > 100 {
        100
    } else {
        q as u8
    }
}

} // verus!
