use vstd::arithmetic::div_mod::{
    lemma_div_is_ordered, lemma_div_multiples_vanish, lemma_div_pos_is_pos,
};
use vstd::prelude::*;

verus! {

// Normalized audio is held in fixed point: the `i32` value `x` stands for
// the amplitude `x / 32768`, so a 16-bit PCM sample `s` stands for exactly
// the amplitude `s / 32768` and full scale (amplitude 1.0) is `32768`.

/// Full scale: the fixed-point image of amplitude 1.0.
pub const Q15_ONE: i32 = 32768;

/// The canonical rate every stream is resampled to, in Hz.
pub const TARGET_RATE: u32 = 16000;

/// A stream read at any index, with silence past either end.
pub open spec fn padded(s: Seq<i32>, i: int) -> int {
    if 0 <= i < s.len() {
        s[i] as int
    } else {
        0
    }
}

/// Division rounding toward zero (the behaviour of `/` on machine
/// integers), for positive divisors.
pub open spec fn div_toward_zero(a: int, b: int) -> int {
    if a >= 0 {
        a / b
    } else {
        -((-a) / b)
    }
}

/// Clamp an amplitude to full scale.
pub open spec fn clamp_full_scale(v: int) -> int {
    if v < -(Q15_ONE as int) {
        -(Q15_ONE as int)
    } else if v > Q15_ONE as int {
        Q15_ONE as int
    } else {
        v
    }
}

/// Linear interpolation between `a` and `b` at fractional position
/// `m / 16000`, rounded toward `a`.
pub open spec fn lerp(a: int, b: int, m: int) -> int {
    if b >= a {
        a + (b - a) * m / (TARGET_RATE as int)
    } else {
        a - (a - b) * m / (TARGET_RATE as int)
    }
}

/// For a span `d >= 0` and a fraction numerator `m` below the denominator,
/// the scaled fraction `d * m / 16000` stays between `0` and `d`.
proof fn lemma_scaled_fraction_bounds(d: int, m: int)
    requires
        0 <= d,
        0 <= m < TARGET_RATE,
    ensures
        0 <= d * m,
        d * m <= d * (TARGET_RATE as int),
        0 <= d * m / (TARGET_RATE as int) <= d,
{
    let r = TARGET_RATE as int;
    assert(0 <= d * m) by (nonlinear_arith)
        requires
            0 <= d,
            0 <= m,
    ;
    assert(d * m <= d * 16000) by (nonlinear_arith)
        requires
            0 <= d,
            m <= 16000,
    ;
    lemma_div_pos_is_pos(d * m, r);
    lemma_div_is_ordered(d * m, d * r, r);
    lemma_div_multiples_vanish(d, r);
}

/// The interpolated value never leaves the interval spanned by its two
/// endpoints.
pub proof fn lemma_lerp_bounds(a: int, b: int, m: int)
    requires
        0 <= m < TARGET_RATE,
    ensures
        b >= a ==> a <= lerp(a, b, m) <= b,
        b < a ==> b <= lerp(a, b, m) <= a,
{
    if b >= a {
        lemma_scaled_fraction_bounds(b - a, m);
    } else {
        lemma_scaled_fraction_bounds(a - b, m);
    }
}

/// An element-for-element copy of a sample buffer.
pub fn copy_samples(v: &Vec<i32>) -> (out: Vec<i32>)
    ensures
        out@ == v@,
{
    let mut out: Vec<i32> = Vec::new();
    let mut i: usize = 0;
    while i < v.len()
        invariant
            i <= v@.len(),
            out@ == v@.take(i as int),
        decreases v@.len() - i,
    {
        out.push(v[i]);
        proof {
            assert(out@ =~= v@.take(i + 1));
        }
        i = i + 1;
    }
    proof {
        assert(out@ =~= v@);
    }
    out
}

/// Exec clamp matching `clamp_full_scale`.
pub fn clamp_full_scale_exec(v: i64) -> (r: i32)
    ensures
        r as int == clamp_full_scale(v as int),
{
    if v < -32768 {
        -32768
    } else if v > 32768 {
        32768
    } else {
        v as i32
    }
}

/// Exec interpolation matching `lerp`.
pub fn lerp_exec(a: i32, b: i32, m: u32) -> (r: i32)
    requires
        m < TARGET_RATE,
    ensures
        r as int == lerp(a as int, b as int, m as int),
{
    if b >= a {
        let d: u64 = (b as i64 - a as i64) as u64;
        proof {
            lemma_scaled_fraction_bounds(d as int, m as int);
        }
        let t: u64 = d * (m as u64) / 16000;
        (a as i64 + t as i64) as i32
    } else {
        let d: u64 = (a as i64 - b as i64) as u64;
        proof {
            lemma_scaled_fraction_bounds(d as int, m as int);
        }
        let t: u64 = d * (m as u64) / 16000;
        (a as i64 - t as i64) as i32
    }
}

} // verus!
