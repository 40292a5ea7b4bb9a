use vstd::prelude::*;
use vstd::string::{StrSliceExecFns, StringExecFns};

verus! {

// The transcript is assembled from the segments the inference engine hands
// back: each segment is trimmed and they are joined with single spaces.

/// ASCII whitespace, the characters trimmed from segment ends.
pub open spec fn is_space(c: char) -> bool {
    c == ' ' || c == '\t' || c == '\n' || c == '\r'
}

/// Leading whitespace removed.
pub open spec fn trim_front(s: Seq<char>) -> Seq<char>
    decreases s.len(),
{
    if s.len() > 0 && is_space(s[0]) {
        trim_front(s.subrange(1, s.len() as int))
    } else {
        s
    }
}

/// Trailing whitespace removed.
pub open spec fn trim_back(s: Seq<char>) -> Seq<char>
    decreases s.len(),
{
    if s.len() > 0 && is_space(s.last()) {
        trim_back(s.drop_last())
    } else {
        s
    }
}

/// Whitespace removed from both ends.
pub open spec fn trimmed(s: Seq<char>) -> Seq<char> {
    trim_back(trim_front(s))
}

/// When everything before `a` is whitespace and `a` is not, the front-trim
/// is exactly the tail from `a`.
proof fn lemma_trim_front_at(s: Seq<char>, a: int)
    requires
        0 <= a <= s.len(),
        forall|k: int| 0 <= k < a ==> is_space(s[k]),
        a < s.len() ==> !is_space(s[a]),
    ensures
        trim_front(s) == s.subrange(a, s.len() as int),
    decreases a,
{
    if a == 0 {
        assert(s.subrange(0, s.len() as int) =~= s);
    } else {
        let s1 = s.subrange(1, s.len() as int);
        lemma_trim_front_at(s1, a - 1);
        assert(s1.subrange(a - 1, s1.len() as int) =~= s.subrange(a, s.len() as int));
    }
}

/// When everything from `b` on is whitespace and `b-1` is not, the
/// back-trim is exactly the head up to `b`.
proof fn lemma_trim_back_at(s: Seq<char>, b: int)
    requires
        0 <= b <= s.len(),
        forall|k: int| b <= k < s.len() ==> is_space(s[k]),
        b > 0 ==> !is_space(s[b - 1]),
    ensures
        trim_back(s) == s.subrange(0, b),
    decreases s.len() - b,
{
    if b == s.len() {
        assert(s.subrange(0, b) =~= s);
    } else {
        lemma_trim_back_at(s.drop_last(), b);
        assert(s.drop_last().subrange(0, b) =~= s.subrange(0, b));
    }
}

pub fn is_space_exec(c: char) -> (r: bool)
    ensures
        r == is_space(c),
{
    c == ' ' || c == '\t' || c == '\n' || c == '\r'
}

/// A view of `s` with ASCII whitespace removed from both ends.
pub fn trim_str(s: &str) -> (r: &str)
    ensures
        r@ == trimmed(s@),
{
    let n = s.unicode_len();
    let mut a: usize = 0;
    while a < n && is_space_exec(s.get_char(a))
        invariant
            a <= n,
            n == s@.len(),
            forall|k: int| 0 <= k < a ==> is_space(s@[k]),
        decreases n - a,
    {
        a = a + 1;
    }
    let mut b: usize = n;
    while b > a && is_space_exec(s.get_char(b - 1))
        invariant
            a <= b <= n,
            n == s@.len(),
            forall|k: int| b <= k < n ==> is_space(s@[k]),
        decreases b,
    {
        b = b - 1;
    }
    let r = s.substring_char(a, b);
    proof {
        lemma_trim_front_at(s@, a as int);
        let tail = s@.subrange(a as int, n as int);
        lemma_trim_back_at(tail, (b - a) as int);
        assert(tail.subrange(0, (b - a) as int) =~= s@.subrange(a as int, b as int));
    }
    r
}

/// Character-for-character equality of two strings.
pub fn str_eq(a: &str, b: &str) -> (r: bool)
    ensures
        r == (a@ == b@),
{
    let na = a.unicode_len();
    let nb = b.unicode_len();
    if na != nb {
        return false;
    }
    let mut i: usize = 0;
    while i < na
        invariant
            i <= na,
            na == a@.len(),
            na == b@.len(),
            forall|k: int| 0 <= k < i ==> a@[k] == b@[k],
        decreases na - i,
    {
        if a.get_char(i) != b.get_char(i) {
            return false;
        }
        i = i + 1;
    }
    proof {
        assert(a@ =~= b@);
    }
    true
}

/// The segments each trimmed, every one followed by one space.
pub open spec fn joined(segs: Seq<Seq<char>>) -> Seq<char>
    decreases segs.len(),
{
    if segs.len() == 0 {
        Seq::empty()
    } else {
        joined(segs.drop_last()) + trimmed(segs.last()) + seq![' ']
    }
}

/// The whole transcript: the joined segments, trimmed once more so that
/// the trailing separator (and a leading one from an empty first segment)
/// disappears.
pub open spec fn transcript_spec(segs: Seq<Seq<char>>) -> Seq<char> {
    trimmed(joined(segs))
}

/// Join the inference engine's text segments into one transcript: trim
/// each, separate them with single spaces.
pub fn assemble_transcript(segments: &Vec<String>) -> (t: String)
    ensures
        t@ == transcript_spec(segments.deep_view()),
{
    let mut acc = String::new();
    let mut i: usize = 0;
    while i < segments.len()
        invariant
            i <= segments@.len(),
            acc@ == joined(segments.deep_view().take(i as int)),
        decreases segments@.len() - i,
    {
        let seg: &String = &segments[i];
        let tr: &str = trim_str(seg.as_str());
        acc.append(tr);
        acc.append(" ");
        proof {
            reveal_strlit(" ");
            let dv = segments.deep_view();
            assert(" "@ =~= seq![' ']);
            assert(dv.take(i + 1).drop_last() =~= dv.take(i as int));
            assert(dv.take(i + 1).last() == segments@[i as int]@);
            assert(acc@ =~= joined(dv.take(i + 1)));
        }
        i = i + 1;
    }
    proof {
        assert(segments.deep_view().take(segments@.len() as int) =~= segments.deep_view());
    }
    let out = trim_str(acc.as_str()).to_owned();
    out
}

} // verus!
