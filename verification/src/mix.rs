use crate::sample::{clamp_full_scale, clamp_full_scale_exec, div_toward_zero, padded, Q15_ONE};
use vstd::prelude::*;

verus! {

/// The longer of two lengths.
pub open spec fn longer(a: nat, b: nat) -> nat {
    if a >= b {
        a
    } else {
        b
    }
}

/// The mixed sample at index `i`: the average of the two streams (silence
/// past the shorter one), rounded toward zero and clamped to full scale.
pub open spec fn mixed_at(a: Seq<i32>, b: Seq<i32>, i: int) -> int {
    clamp_full_scale(div_toward_zero(padded(a, i) + padded(b, i), 2))
}

/// The mix of two 16 kHz mono streams. An empty stream leaves the other
/// unchanged; otherwise the output covers the longer stream and averages
/// sample-for-sample, padding the shorter stream with silence.
pub open spec fn mix_spec(a: Seq<i32>, b: Seq<i32>) -> Seq<i32> {
    if b.len() == 0 {
        a
    } else if a.len() == 0 {
        b
    } else {
        Seq::new(longer(a.len(), b.len()), |i: int| mixed_at(a, b, i) as i32)
    }
}

/// Mix the microphone-derived and system-audio-derived streams into one
/// mono stream, as `mix_spec` says.
pub fn mix_streams(mic: &Vec<i32>, sys: &Vec<i32>) -> (out: Vec<i32>)
    ensures
        out@ == mix_spec(mic@, sys@),
        sys@.len() == 0 ==> out@ == mic@,
        mic@.len() == 0 ==> out@ == sys@,
        mic@.len() > 0 && sys@.len() > 0 ==> out@.len() == longer(mic@.len(), sys@.len()),
{
    if sys.len() == 0 {
        return crate::sample::copy_samples(mic);
    }
    if mic.len() == 0 {
        return crate::sample::copy_samples(sys);
    }
    let len: usize = if mic.len() >= sys.len() {
        mic.len()
    } else {
        sys.len()
    };
    let mut out: Vec<i32> = Vec::new();
    let mut i: usize = 0;
    while i < len
        invariant
            i <= len,
            len as nat == longer(mic@.len(), sys@.len()),
            out@.len() == i as nat,
            forall|j: int| 0 <= j < i ==> out@[j] as int == mixed_at(mic@, sys@, j),
        decreases len - i,
    {
        let a: i32 = if i < mic.len() {
            mic[i]
        } else {
            0
        };
        let b: i32 = if i < sys.len() {
            sys[i]
        } else {
            0
        };
        let s: i64 = a as i64 + b as i64;
        let h: i64 = if s >= 0 {
            ((s as u64) / 2) as i64
        } else {
            -((((-s) as u64) / 2) as i64)
        };
        out.push(clamp_full_scale_exec(h));
        i = i + 1;
    }
    proof {
        assert forall|j: int| 0 <= j < out@.len() implies out@[j] == mix_spec(mic@, sys@)[j] by {
            assert(out@[j] as int == mixed_at(mic@, sys@, j));
        }
        assert(out@ =~= mix_spec(mic@, sys@));
    }
    out
}

/// Law (mixing clamp): where both streams sit at full scale, the mix is
/// exactly full scale, not beyond it.
pub proof fn lemma_mix_full_scale(a: Seq<i32>, b: Seq<i32>, i: int)
    requires
        0 <= i < a.len(),
        0 <= i < b.len(),
        a[i] == Q15_ONE,
        b[i] == Q15_ONE,
    ensures
        mixed_at(a, b, i) == Q15_ONE as int,
{
}

/// Law (mixing length): past the end of the shorter stream, the mix is the
/// longer stream's sample averaged with silence.
pub proof fn lemma_mix_past_shorter(a: Seq<i32>, b: Seq<i32>, i: int)
    requires
        0 < b.len() <= i < a.len(),
    ensures
        mix_spec(a, b)[i] as int == clamp_full_scale(div_toward_zero(a[i] + 0, 2)),
{
}

/// Law (mixing length), the other orientation: the second stream may be
/// the longer one.
pub proof fn lemma_mix_past_shorter_first(a: Seq<i32>, b: Seq<i32>, i: int)
    requires
        0 < a.len() <= i < b.len(),
    ensures
        mix_spec(a, b)[i] as int == clamp_full_scale(div_toward_zero(b[i] + 0, 2)),
{
}

} // verus!
