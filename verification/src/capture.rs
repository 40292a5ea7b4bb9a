use crate::sample::{clamp_full_scale, clamp_full_scale_exec, div_toward_zero, padded};
use vstd::arithmetic::div_mod::{
    lemma_div_is_ordered, lemma_div_multiples_vanish, lemma_div_multiples_vanish_fancy,
    lemma_div_pos_is_pos,
};
use vstd::arithmetic::mul::lemma_mul_inequality;
use vstd::prelude::*;

verus! {

// Capture callbacks deliver interleaved frames (microphone) or one buffer
// per channel (system audio). Downmixing to mono averages the channels of
// each frame, rounding toward zero as machine division does.

/// Sum of a window of 16-bit samples.
pub open spec fn sum_pcm(s: Seq<i16>) -> int
    decreases s.len(),
{
    if s.len() == 0 {
        0
    } else {
        sum_pcm(s.drop_last()) + s.last()
    }
}

/// Sum of a window of fixed-point samples.
pub open spec fn sum_q15(s: Seq<i32>) -> int
    decreases s.len(),
{
    if s.len() == 0 {
        0
    } else {
        sum_q15(s.drop_last()) + s.last()
    }
}

/// How many frames `len` interleaved samples make at `ch` channels,
/// counting a trailing partial frame.
pub open spec fn frame_count(len: int, ch: int) -> int {
    (len + ch - 1) / ch
}

/// Where frame `f` ends: after `ch` samples, or at the buffer's end for
/// the trailing partial frame.
pub open spec fn frame_end(len: int, ch: int, f: int) -> int {
    if (f + 1) * ch <= len {
        (f + 1) * ch
    } else {
        len
    }
}

/// Frame `f` of an interleaved 16-bit buffer.
pub open spec fn pcm_frame(data: Seq<i16>, ch: int, f: int) -> Seq<i16> {
    data.subrange(f * ch, frame_end(data.len() as int, ch, f))
}

/// Frame `f` of an interleaved fixed-point buffer.
pub open spec fn q15_frame(data: Seq<i32>, ch: int, f: int) -> Seq<i32> {
    data.subrange(f * ch, frame_end(data.len() as int, ch, f))
}

/// The mono 16-bit sample for frame `f`: the frame's channel average,
/// rounded toward zero.
pub open spec fn mono_pcm_at(data: Seq<i16>, ch: int, f: int) -> int {
    div_toward_zero(sum_pcm(pcm_frame(data, ch, f)), ch)
}

/// A full-scale-clamped fixed-point amplitude brought to the 16-bit PCM
/// domain, as `(v * 32767 / 32768)` rounded toward zero.
pub open spec fn q15_to_pcm(v: int) -> int {
    div_toward_zero(clamp_full_scale(v) * 32767, 32768)
}

/// The mono 16-bit sample for frame `f` of a fixed-point buffer: channel
/// average, clamped to full scale, scaled to the 16-bit domain.
pub open spec fn mono_q15_at(data: Seq<i32>, ch: int, f: int) -> int {
    q15_to_pcm(div_toward_zero(sum_q15(q15_frame(data, ch, f)), ch))
}

/// An interleaved 16-bit buffer downmixed to mono.
pub open spec fn downmix_pcm_spec(data: Seq<i16>, ch: int) -> Seq<i16> {
    Seq::new(frame_count(data.len() as int, ch) as nat, |f: int| mono_pcm_at(data, ch, f) as i16)
}

/// An interleaved fixed-point buffer downmixed to mono 16-bit PCM.
pub open spec fn downmix_q15_spec(data: Seq<i32>, ch: int) -> Seq<i16> {
    Seq::new(frame_count(data.len() as int, ch) as nat, |f: int| mono_q15_at(data, ch, f) as i16)
}

/// Sum, at sample index `i`, of the first `n` per-channel buffers, a
/// missing sample counting as silence.
pub open spec fn across_sum(chs: Seq<Vec<i32>>, i: int, n: int) -> int
    decreases n,
{
    if n <= 0 {
        0
    } else {
        across_sum(chs, i, n - 1) + padded(chs[n - 1]@, i)
    }
}

/// Per-channel buffers downmixed to one mono fixed-point buffer covering
/// the first channel's length.
pub open spec fn downmix_channels_spec(chs: Seq<Vec<i32>>) -> Seq<i32> {
    if chs.len() == 0 {
        Seq::empty()
    } else {
        Seq::new(
            chs[0]@.len(),
            |i: int|
                div_toward_zero(across_sum(chs, i, chs.len() as int), chs.len() as int) as i32,
        )
    }
}

/// Averaging a sum of at most `ch` samples by `ch` keeps the result within
/// the samples' own range.
proof fn lemma_avg_bounds(sum: int, k: int, ch: int, lo: int, hi: int)
    requires
        1 <= ch,
        0 <= k <= ch,
        lo <= 0 <= hi,
        k * lo <= sum <= k * hi,
    ensures
        lo <= div_toward_zero(sum, ch) <= hi,
{
    if sum >= 0 {
        lemma_mul_inequality(k, ch, hi);
        lemma_div_is_ordered(sum, ch * hi, ch);
        lemma_div_multiples_vanish(hi, ch);
        lemma_div_pos_is_pos(sum, ch);
    } else {
        lemma_mul_inequality(k, ch, -lo);
        assert(-(k * lo) == k * (-lo)) by (nonlinear_arith);
        lemma_div_is_ordered(-sum, ch * (-lo), ch);
        lemma_div_multiples_vanish(-lo, ch);
        lemma_div_pos_is_pos(-sum, ch);
    }
}

/// A frame window `(f-1)*ch < len <= f*ch` pins the frame count down to
/// exactly `f`.
proof fn lemma_frame_count_exact(len: int, ch: int, f: int)
    requires
        1 <= ch,
        0 <= len,
        len <= f * ch,
        f * ch < len + ch,
    ensures
        f == frame_count(len, ch),
{
    let b = len + ch - 1 - f * ch;
    assert(ch * f == f * ch) by (nonlinear_arith);
    assert(len + ch - 1 == ch * f + b);
    lemma_div_multiples_vanish_fancy(f, b, ch);
}

/// Division toward zero, computed with machine integers.
fn div_toward_zero_exec(sum: i64, d: u64) -> (r: i64)
    requires
        1 <= d,
        -0x4000_0000_0000_0000 <= sum <= 0x4000_0000_0000_0000,
    ensures
        r as int == div_toward_zero(sum as int, d as int),
        -0x4000_0000_0000_0000 <= r <= 0x4000_0000_0000_0000,
{
    proof {
        let mag: int = if sum >= 0 {
            sum as int
        } else {
            -(sum as int)
        };
        lemma_div_pos_is_pos(mag, d as int);
        vstd::arithmetic::div_mod::lemma_div_nonincreasing(mag, d as int);
    }
    if sum >= 0 {
        ((sum as u64) / d) as i64
    } else {
        -((((-sum) as u64) / d) as i64)
    }
}

/// Downmix an interleaved 16-bit capture buffer to mono by averaging each
/// frame's channels, as the microphone callback does for integer input.
pub fn downmix_pcm_frames(data: &Vec<i16>, channels: usize) -> (out: Vec<i16>)
    requires
        1 <= channels <= 65535,
    ensures
        out@ == downmix_pcm_spec(data@, channels as int),
        out@.len() == frame_count(data@.len() as int, channels as int),
{
    let len = data.len();
    let mut out: Vec<i16> = Vec::new();
    let mut start: usize = 0;
    proof {
        vstd::arithmetic::mul::lemma_mul_basics(channels as int);
    }
    while start < len
        invariant
            1 <= channels <= 65535,
            len == data@.len(),
            start <= len,
            start == out@.len() * channels || (start == len && len < out@.len() * channels),
            out@.len() * channels < len + channels,
            forall|j: int|
                0 <= j < out@.len() ==> out@[j] as int == mono_pcm_at(
                    data@,
                    channels as int,
                    j,
                ),
        decreases len - start,
    {
        let ghost f = out@.len() as int;
        let remaining = len - start;
        let k = if remaining < channels {
            remaining
        } else {
            channels
        };
        let mut sum: i64 = 0;
        let mut j: usize = 0;
        while j < k
            invariant
                j <= k,
                start + k <= len,
                k <= 65535,
                len == data@.len(),
                sum as int == sum_pcm(data@.subrange(start as int, (start + j) as int)),
                -(j * 32768) <= sum as int <= j * 32767,
            decreases k - j,
        {
            proof {
                let w = data@.subrange(start as int, (start + j + 1) as int);
                assert(w.drop_last() =~= data@.subrange(start as int, (start + j) as int));
            }
            sum = sum + data[start + j] as i64;
            j = j + 1;
        }
        let mono: i64 = div_toward_zero_exec(sum, channels as u64);
        proof {
            lemma_avg_bounds(sum as int, k as int, channels as int, -32768, 32767);
            assert((f + 1) * channels == f * channels + channels) by (nonlinear_arith);
            assert(pcm_frame(data@, channels as int, f) =~= data@.subrange(
                start as int,
                (start + k) as int,
            ));
        }
        out.push(mono as i16);
        start = start + k;
    }
    proof {
        lemma_frame_count_exact(len as int, channels as int, out@.len() as int);
        assert(out@ =~= downmix_pcm_spec(data@, channels as int));
    }
    out
}

/// Downmix an interleaved fixed-point capture buffer to mono 16-bit PCM:
/// average each frame's channels, clamp to full scale, scale to the 16-bit
/// domain, as the microphone callback does for float input.
pub fn downmix_q15_frames(data: &Vec<i32>, channels: usize) -> (out: Vec<i16>)
    requires
        1 <= channels <= 65535,
    ensures
        out@ == downmix_q15_spec(data@, channels as int),
        out@.len() == frame_count(data@.len() as int, channels as int),
{
    let len = data.len();
    let mut out: Vec<i16> = Vec::new();
    let mut start: usize = 0;
    proof {
        vstd::arithmetic::mul::lemma_mul_basics(channels as int);
    }
    while start < len
        invariant
            1 <= channels <= 65535,
            len == data@.len(),
            start <= len,
            start == out@.len() * channels || (start == len && len < out@.len() * channels),
            out@.len() * channels < len + channels,
            forall|j: int|
                0 <= j < out@.len() ==> out@[j] as int == mono_q15_at(
                    data@,
                    channels as int,
                    j,
                ),
        decreases len - start,
    {
        let ghost f = out@.len() as int;
        let remaining = len - start;
        let k = if remaining < channels {
            remaining
        } else {
            channels
        };
        let mut sum: i64 = 0;
        let mut j: usize = 0;
        while j < k
            invariant
                j <= k,
                start + k <= len,
                k <= 65535,
                len == data@.len(),
                sum as int == sum_q15(data@.subrange(start as int, (start + j) as int)),
                -(j * 0x8000_0000) <= sum as int <= j * 0x7fff_ffff,
            decreases k - j,
        {
            proof {
                let w = data@.subrange(start as int, (start + j + 1) as int);
                assert(w.drop_last() =~= data@.subrange(start as int, (start + j) as int));
            }
            sum = sum + data[start + j] as i64;
            j = j + 1;
        }
        let avg: i64 = div_toward_zero_exec(sum, channels as u64);
        proof {
            lemma_avg_bounds(sum as int, k as int, channels as int, -0x8000_0000, 0x7fff_ffff);
        }
        let clamped: i32 = clamp_full_scale_exec(avg);
        let scaled_wide: i64 = (clamped as i64) * 32767;
        let pcm: i64 = div_toward_zero_exec(scaled_wide, 32768);
        proof {
            if scaled_wide >= 0 {
                lemma_div_is_ordered(scaled_wide as int, (32768 * 32767) as int, 32768int);
                lemma_div_multiples_vanish(32767, 32768);
            } else {
                lemma_div_is_ordered(-(scaled_wide as int), (32768 * 32767) as int, 32768int);
                lemma_div_multiples_vanish(32767, 32768);
            }
            assert((f + 1) * channels == f * channels + channels) by (nonlinear_arith);
            assert(q15_frame(data@, channels as int, f) =~= data@.subrange(
                start as int,
                (start + k) as int,
            ));
        }
        out.push(pcm as i16);
        start = start + k;
    }
    proof {
        lemma_frame_count_exact(len as int, channels as int, out@.len() as int);
        assert(out@ =~= downmix_q15_spec(data@, channels as int));
    }
    out
}

/// Downmix per-channel buffers (one buffer per channel, as the system-audio
/// callback receives them) into one mono fixed-point buffer covering the
/// first channel's length; a channel that is short at some index counts as
/// silence there.
pub fn downmix_channels(chans: &Vec<Vec<i32>>) -> (out: Vec<i32>)
    requires
        chans@.len() <= 65535,
    ensures
        out@ == downmix_channels_spec(chans@),
{
    let n = chans.len();
    if n == 0 {
        let out: Vec<i32> = Vec::new();
        proof {
            assert(out@ =~= downmix_channels_spec(chans@));
        }
        return out;
    }
    let frame_len = chans[0].len();
    let mut out: Vec<i32> = Vec::new();
    let mut i: usize = 0;
    while i < frame_len
        invariant
            1 <= n <= 65535,
            n == chans@.len(),
            frame_len == chans@[0]@.len(),
            i <= frame_len,
            out@.len() == i as nat,
            forall|x: int|
                0 <= x < i ==> out@[x] as int == div_toward_zero(
                    across_sum(chans@, x, n as int),
                    n as int,
                ),
        decreases frame_len - i,
    {
        let mut sum: i64 = 0;
        let mut j: usize = 0;
        while j < n
            invariant
                j <= n,
                n <= 65535,
                n == chans@.len(),
                i < frame_len,
                sum as int == across_sum(chans@, i as int, j as int),
                -(j * 0x8000_0000) <= sum as int <= j * 0x7fff_ffff,
            decreases n - j,
        {
            let cj: &Vec<i32> = &chans[j];
            let v: i32 = if i < cj.len() {
                cj[i]
            } else {
                0
            };
            sum = sum + v as i64;
            j = j + 1;
        }
        let avg: i64 = div_toward_zero_exec(sum, n as u64);
        proof {
            lemma_avg_bounds(sum as int, n as int, n as int, -0x8000_0000, 0x7fff_ffff);
        }
        out.push(avg as i32);
        i = i + 1;
    }
    proof {
        assert(out@ =~= downmix_channels_spec(chans@));
    }
    out
}

} // verus!
