use chrono::{Datelike, Timelike};
use vstd::prelude::*;
use vstd::string::StringExecFns;

verus! {

// Recording artifacts are named by the UTC instant at which the recording
// stopped, rendered as `YYYYMMDD-HHMMSS.wav`. The clock is read through a
// trusted wrapper; the rendering is verified.

/// The character for one decimal digit.
pub open spec fn digit_char(d: int) -> char {
    if d == 0 {
        '0'
    } else if d == 1 {
        '1'
    } else if d == 2 {
        '2'
    } else if d == 3 {
        '3'
    } else if d == 4 {
        '4'
    } else if d == 5 {
        '5'
    } else if d == 6 {
        '6'
    } else if d == 7 {
        '7'
    } else if d == 8 {
        '8'
    } else {
        '9'
    }
}

/// Decimal digits of a nonnegative value, most significant first.
pub open spec fn decimal(n: int) -> Seq<char>
    decreases n,
{
    if n < 10 {
        seq![digit_char(n)]
    } else {
        decimal(n / 10) + seq![digit_char(n % 10)]
    }
}

/// `k` zero characters.
pub open spec fn zeros(k: int) -> Seq<char>
    decreases k,
{
    if k <= 0 {
        Seq::empty()
    } else {
        seq!['0'] + zeros(k - 1)
    }
}

/// A nonnegative value in decimal, left-padded with zeros to at least `w`
/// digits.
pub open spec fn padded_decimal(n: int, w: int) -> Seq<char> {
    zeros(w - decimal(n).len()) + decimal(n)
}

proof fn lemma_zeros(k: int)
    ensures
        zeros(k).len() == (if k <= 0 {
            0int
        } else {
            k
        }),
        forall|i: int| 0 <= i < zeros(k).len() ==> zeros(k)[i] == '0',
    decreases k,
{
    if k > 0 {
        lemma_zeros(k - 1);
    }
}

fn digit_str(d: u32) -> (s: &'static str)
    requires
        d < 10,
    ensures
        s@ == seq![digit_char(d as int)],
{
    let r: &'static str = if d == 0 {
        "0"
    } else if d == 1 {
        "1"
    } else if d == 2 {
        "2"
    } else if d == 3 {
        "3"
    } else if d == 4 {
        "4"
    } else if d == 5 {
        "5"
    } else if d == 6 {
        "6"
    } else if d == 7 {
        "7"
    } else if d == 8 {
        "8"
    } else {
        "9"
    };
    proof {
        reveal_strlit("0");
        reveal_strlit("1");
        reveal_strlit("2");
        reveal_strlit("3");
        reveal_strlit("4");
        reveal_strlit("5");
        reveal_strlit("6");
        reveal_strlit("7");
        reveal_strlit("8");
        reveal_strlit("9");
        assert(r@ =~= seq![digit_char(d as int)]);
    }
    r
}

/// Append `v` in decimal, left-padded with zeros to at least `width`
/// digits.
fn push_padded(out: &mut String, v: u32, width: usize)
    ensures
        final(out)@ == old(out)@ + padded_decimal(v as int, width as int),
    decreases v,
{
    if v < 10 {
        let mut k: usize = width;
        while k > 1
            invariant
                width == 0 ==> k == 0,
                width > 0 ==> 1 <= k <= width,
                out@ == old(out)@ + zeros(width as int - k as int),
            decreases k,
        {
            proof {
                lemma_zeros(width as int - k as int);
                lemma_zeros(width as int - k as int + 1);
                reveal_strlit("0");
                assert("0"@ =~= seq!['0']);
            }
            out.append("0");
            proof {
                assert(out@ =~= old(out)@ + zeros(width as int - (k - 1) as int));
            }
            k = k - 1;
        }
        out.append(digit_str(v));
        proof {
            lemma_zeros(width as int - 1);
            assert(out@ =~= old(out)@ + padded_decimal(v as int, width as int));
        }
    } else {
        let w1: usize = if width == 0 {
            0
        } else {
            width - 1
        };
        push_padded(out, v / 10, w1);
        out.append(digit_str(v % 10));
        proof {
            assert(decimal(v as int).len() == decimal(v as int / 10).len() + 1);
            assert(out@ =~= old(out)@ + padded_decimal(v as int, width as int));
        }
    }
}

/// The artifact name for a recording stopped at the given UTC instant:
/// `YYYYMMDD-HHMMSS.wav`, each field zero-padded; a year before the common
/// era carries a leading minus.
pub open spec fn file_name_spec(y: int, mo: int, d: int, h: int, mi: int, s: int) -> Seq<char> {
    (if y >= 0 {
        padded_decimal(y, 4)
    } else {
        seq!['-'] + padded_decimal(-y, 4)
    }) + padded_decimal(mo, 2) + padded_decimal(d, 2) + seq!['-'] + padded_decimal(h, 2)
        + padded_decimal(mi, 2) + padded_decimal(s, 2) + ".wav"@
}

/// Render a UTC instant as a recording artifact name.
pub fn recording_file_name(year: i32, month: u32, day: u32, hour: u32, minute: u32, second: u32) -> (r:
    String)
    ensures
        r@ == file_name_spec(
            year as int,
            month as int,
            day as int,
            hour as int,
            minute as int,
            second as int,
        ),
{
    let mut out = String::new();
    if year >= 0 {
        push_padded(&mut out, year as u32, 4);
    } else {
        proof {
            reveal_strlit("-");
            assert("-"@ =~= seq!['-']);
        }
        out.append("-");
        push_padded(&mut out, (-(year as i64)) as u32, 4);
    }
    push_padded(&mut out, month, 2);
    push_padded(&mut out, day, 2);
    proof {
        reveal_strlit("-");
        assert("-"@ =~= seq!['-']);
    }
    out.append("-");
    push_padded(&mut out, hour, 2);
    push_padded(&mut out, minute, 2);
    push_padded(&mut out, second, 2);
    out.append(".wav");
    proof {
        assert(out@ =~= file_name_spec(
            year as int,
            month as int,
            day as int,
            hour as int,
            minute as int,
            second as int,
        ));
    }
    out
}

/// Relies on chrono: `Utc::now` for the current instant, converted to
/// plain values through the `Datelike`/`Timelike` accessors `year`,
/// `month`, `day`, `hour`, `minute` and `second`. The clauses state only
/// the ranges those accessors document (month 1-12, day 1-31, hour below
/// 24, minute and second below 60); nothing is promised of the clock's
/// value itself.
#[verifier::external_body]
pub fn now_utc_parts() -> (t: (i32, u32, u32, u32, u32, u32))
    ensures
        1 <= t.1 <= 12,
        1 <= t.2 <= 31,
        t.3 < 24,
        t.4 < 60,
        t.5 < 60,
{
    let now = chrono::Utc::now();
    (now.year(), now.month(), now.day(), now.hour(), now.minute(), now.second())
}

/// Relies on chrono: `Utc::now().to_rfc3339()`, an RFC 3339 rendering of
/// the current instant. Nothing is promised of the clock's value.
#[verifier::external_body]
pub fn now_rfc3339() -> (r: String) {
    chrono::Utc::now().to_rfc3339()
}

/// The current UTC instant rendered as a recording artifact name; the
/// fields come from the clock, so only their documented ranges are known.
pub fn timestamped_wav_name() -> (r: String)
    ensures
        exists|y: int, mo: int, d: int, h: int, mi: int, s: int|
            1 <= mo <= 12 && 1 <= d <= 31 && 0 <= h < 24 && 0 <= mi < 60 && 0 <= s < 60 && r@
                == #[trigger] file_name_spec(y, mo, d, h, mi, s),
{
    let (y, mo, d, h, mi, s) = now_utc_parts();
    let r = recording_file_name(y, mo, d, h, mi, s);
    proof {
        assert(r@ == file_name_spec(
            y as int,
            mo as int,
            d as int,
            h as int,
            mi as int,
            s as int,
        ));
    }
    r
}

} // verus!
