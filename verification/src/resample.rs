use crate::sample::{lemma_lerp_bounds, lerp, lerp_exec, padded, TARGET_RATE};
use vstd::arithmetic::div_mod::{
    lemma_div_is_ordered, lemma_div_multiples_vanish, lemma_div_nonincreasing,
    lemma_fundamental_div_mod, lemma_mod_division_less_than_divisor,
};
use vstd::prelude::*;

verus! {

/// Number of output samples when `len` input samples at `src_rate` Hz are
/// brought to 16 kHz: `floor(len * 16000 / src_rate)`.
pub open spec fn resample_len(len: nat, src_rate: nat) -> nat {
    (len * (TARGET_RATE as nat)) / src_rate
}

/// The resampled value at output index `i`: the fractional source position
/// is `i * src_rate / 16000`; the two neighbouring samples (silence when
/// out of range) are interpolated linearly.
pub open spec fn resampled_at(s: Seq<i32>, src_rate: int, i: int) -> int {
    let pos = i * src_rate;
    let idx = pos / (TARGET_RATE as int);
    let m = pos % (TARGET_RATE as int);
    lerp(padded(s, idx), padded(s, idx + 1), m)
}

/// A whole stream brought to 16 kHz. At 16 kHz the stream is returned
/// unchanged.
pub open spec fn resample_spec(s: Seq<i32>, src_rate: nat) -> Seq<i32> {
    if src_rate == TARGET_RATE as nat {
        s
    } else {
        Seq::new(
            resample_len(s.len(), src_rate),
            |i: int| resampled_at(s, src_rate as int, i) as i32,
        )
    }
}

/// A 16-bit PCM stream embedded in fixed point: sample `s` stands for the
/// amplitude `s / 32768`, which is the fixed-point value `s` itself.
pub open spec fn widened(s: Seq<i16>) -> Seq<i32> {
    s.map_values(|x: i16| x as i32)
}

/// For an output index `i` below the output length, the source position
/// `i * src_rate` stays below `len * 16000`, so its integer part stays
/// within the input.
proof fn lemma_source_position(len: int, src_rate: int, i: int)
    requires
        0 <= len,
        1 <= src_rate,
        0 <= i < (len * (TARGET_RATE as int)) / src_rate,
    ensures
        0 <= i * src_rate,
        i * src_rate < len * (TARGET_RATE as int),
        (i * src_rate) / (TARGET_RATE as int) <= len,
        0 <= (i * src_rate) % (TARGET_RATE as int) < TARGET_RATE,
{
    let r = TARGET_RATE as int;
    let out_len = (len * r) / src_rate;
    lemma_fundamental_div_mod(len * r, src_rate);
    lemma_mod_division_less_than_divisor(len * r, src_rate);
    assert(src_rate * out_len <= len * r);
    assert(0 <= i * src_rate) by (nonlinear_arith)
        requires
            0 <= i,
            0 <= src_rate,
    ;
    assert(i * src_rate < src_rate * out_len) by (nonlinear_arith)
        requires
            0 <= i,
            i < out_len,
            1 <= src_rate,
    ;
    lemma_div_is_ordered(i * src_rate, len * r, r);
    lemma_div_multiples_vanish(len, r);
    lemma_mod_division_less_than_divisor(i * src_rate, r);
}

/// Law (silence padding): an output sample whose source position lies at or
/// past the input's end interpolates silence with silence, so it is silence.
pub proof fn lemma_resample_pads_with_silence(s: Seq<i32>, src_rate: int, i: int)
    requires
        (i * src_rate) / (TARGET_RATE as int) >= s.len(),
    ensures
        resampled_at(s, src_rate, i) == 0,
{
    let pos = i * src_rate;
    let idx = pos / (TARGET_RATE as int);
    assert(padded(s, idx) == 0);
    assert(padded(s, idx + 1) == 0);
}

/// Resample a fixed-point mono stream from `src_rate` Hz to 16 kHz by
/// linear interpolation, reading silence past the input's bounds.
pub fn resample_q15_to_16k(samples: &Vec<i32>, src_rate: u32) -> (out: Vec<i32>)
    requires
        1 <= src_rate,
        samples@.len() * (TARGET_RATE as nat) <= usize::MAX as nat,
    ensures
        out@ == resample_spec(samples@, src_rate as nat),
        src_rate == TARGET_RATE ==> out@ == samples@,
        src_rate != TARGET_RATE ==> out@.len() == resample_len(samples@.len(), src_rate as nat),
        src_rate != TARGET_RATE ==> forall|i: int|
            0 <= i < out@.len() ==> out@[i] as int == resampled_at(samples@, src_rate as int, i),
    {
    if src_rate == 16000 {
        return crate::sample::copy_samples(samples);
    }
    let len: usize = samples.len();
    proof {
        lemma_div_nonincreasing(len * (TARGET_RATE as int), src_rate as int);
    }
    let out_len: usize = ((len as u64) * 16000 / (src_rate as u64)) as usize;
    let mut out: Vec<i32> = Vec::new();
    let mut i: usize = 0;
    while i < out_len
        invariant
            i <= out_len,
            1 <= src_rate,
            src_rate != 16000,
            len == samples@.len(),
            len * (TARGET_RATE as nat) <= usize::MAX as nat,
            out_len as nat == resample_len(samples@.len(), src_rate as nat),
            out@.len() == i as nat,
            forall|j: int|
                0 <= j < i ==> out@[j] as int == resampled_at(samples@, src_rate as int, j),
        decreases out_len - i,
    {
        proof {
            lemma_source_position(len as int, src_rate as int, i as int);
        }
        let pos: u64 = (i as u64) * (src_rate as u64);
        let idx_u: u64 = pos / 16000;
        let m: u64 = pos % 16000;
        let idx: usize = idx_u as usize;
        let s0: i32 = if idx < len {
            samples[idx]
        } else {
            0
        };
        let s1: i32 = if idx + 1 < len {
            samples[idx + 1]
        } else {
            0
        };
        let v: i32 = lerp_exec(s0, s1, m as u32);
        out.push(v);
        i = i + 1;
    }
    proof {
        assert forall|j: int| 0 <= j < out@.len() implies out@[j] == resample_spec(
            samples@,
            src_rate as nat,
        )[j] by {
            let pos = j * (src_rate as int);
            lemma_lerp_bounds(
                padded(samples@, pos / (TARGET_RATE as int)),
                padded(samples@, pos / (TARGET_RATE as int) + 1),
                pos % (TARGET_RATE as int),
            );
            lemma_mod_division_less_than_divisor(pos, TARGET_RATE as int);
            assert(out@[j] as int == resampled_at(samples@, src_rate as int, j));
        }
        assert(out@ =~= resample_spec(samples@, src_rate as nat));
    }
    out
}

/// Resample 16-bit integer PCM at `src_rate` Hz to 16 kHz fixed point.
/// Normalization of each sample (divide by 32768) is the fixed-point
/// embedding itself, so at 16 kHz the output is the input, embedded.
pub fn resample_to_16k(samples: &Vec<i16>, src_rate: u32) -> (out: Vec<i32>)
    requires
        1 <= src_rate,
        samples@.len() * (TARGET_RATE as nat) <= usize::MAX as nat,
    ensures
        out@ == resample_spec(widened(samples@), src_rate as nat),
        src_rate == TARGET_RATE ==> out@ == widened(samples@),
    {
    let mut q: Vec<i32> = Vec::new();
    let mut i: usize = 0;
    while i < samples.len()
        invariant
            i <= samples@.len(),
            q@.len() == i as nat,
            forall|j: int| 0 <= j < i ==> q@[j] == samples@[j] as i32,
        decreases samples@.len() - i,
    {
        q.push(samples[i] as i32);
        i = i + 1;
    }
    proof {
        assert(q@ =~= widened(samples@));
    }
    resample_q15_to_16k(&q, src_rate)
}

} // verus!
