//! Elapsed-time formatting.
//!
//! An elapsed number of seconds is decomposed into days, hours, minutes and
//! seconds by plain base-60/24 arithmetic, and rendered in one of two
//! presentations. Both pick the tier of the largest nonzero unit:
//! compact gives `D:HH:MM:SS` / `HH:MM:SS` / `MM:SS` / `SS` with every field
//! but the day count two-digit zero-padded, and verbose gives comma-separated
//! `<value> Unit` phrases down to seconds.

use vstd::prelude::*;

verus! {

/// The decimal digit `d` as a character; meaningful for `d < 10`.
pub open spec fn digit_char(d: nat) -> char {
    if d == 0 {
        '0'
    } else if d == 1 {
        '1'
    } else if d == 2 {
        '2'
    } else if d == 3 {
        '3'
    } else if d == 4 {
        '4'
    } else if d == 5 {
        '5'
    } else if d == 6 {
        '6'
    } else if d == 7 {
        '7'
    } else if d == 8 {
        '8'
    } else {
        '9'
    }
}

/// The usual decimal rendering of `n`, without padding or sign.
pub open spec fn dec_str(n: nat) -> Seq<char>
    decreases n,
{
    if n < 10 {
        seq![digit_char(n)]
    } else {
        dec_str(n / 10).push(digit_char(n % 10))
    }
}

/// The decimal rendering of `n` padded on the left with `'0'` to at least
/// two characters.
pub open spec fn pad2(n: nat) -> Seq<char> {
    if n < 10 {
        seq!['0'].push(digit_char(n))
    } else {
        dec_str(n)
    }
}

/// Every number below one hundred pads to exactly two digits, so in the
/// formats below each field after the leading one is two characters wide.
pub proof fn lemma_pad2_two_digits(n: nat)
    requires
        n < 100,
    ensures
        pad2(n).len() == 2,
{
    if n >= 10 {
        reveal_with_fuel(dec_str, 2);
    }
}

/// In the compact presentation every non-leading numeric field — the hour,
/// minute and second counts — is exactly two characters wide, for every
/// elapsed value.
pub proof fn lemma_compact_fields_two_digits(t: nat)
    ensures
        pad2(t % 60).len() == 2,
        pad2((t / 60) % 60).len() == 2,
        pad2((t / 3600) % 24).len() == 2,
{
    lemma_pad2_two_digits(t % 60);
    lemma_pad2_two_digits((t / 60) % 60);
    lemma_pad2_two_digits((t / 3600) % 24);
}

fn digit_string(d: usize) -> (r: &'static str)
    requires
        d < 10,
    ensures
        r@ =~= seq![digit_char(d as nat)],
{
    if d == 0 {
        proof {
            reveal_strlit("0");
        }
        "0"
    } else if d == 1 {
        proof {
            reveal_strlit("1");
        }
        "1"
    } else if d == 2 {
        proof {
            reveal_strlit("2");
        }
        "2"
    } else if d == 3 {
        proof {
            reveal_strlit("3");
        }
        "3"
    } else if d == 4 {
        proof {
            reveal_strlit("4");
        }
        "4"
    } else if d == 5 {
        proof {
            reveal_strlit("5");
        }
        "5"
    } else if d == 6 {
        proof {
            reveal_strlit("6");
        }
        "6"
    } else if d == 7 {
        proof {
            reveal_strlit("7");
        }
        "7"
    } else if d == 8 {
        proof {
            reveal_strlit("8");
        }
        "8"
    } else {
        proof {
            reveal_strlit("9");
        }
        "9"
    }
}

/// `n` written in decimal.
pub fn dec_string(n: usize) -> (r: String)
    ensures
        r@ == dec_str(n as nat),
    decreases n,
{
    if n < 10 {
        let mut s = String::new();
        s.append(digit_string(n));
        proof {
            assert(s@ =~= dec_str(n as nat));
        }
        s
    } else {
        let mut s = dec_string(n / 10);
        s.append(digit_string(n % 10));
        proof {
            assert(s@ =~= dec_str(n as nat));
        }
        s
    }
}

/// `n` written in decimal, zero-padded to at least two digits.
pub fn pad2_string(n: usize) -> (r: String)
    ensures
        r@ == pad2(n as nat),
{
    if n < 10 {
        let mut s = String::new();
        s.append(digit_string(0));
        s.append(digit_string(n));
        proof {
            assert(s@ =~= pad2(n as nat));
        }
        s
    } else {
        dec_string(n)
    }
}

/// The compact rendering of `t` seconds: the largest nonzero unit picks the
/// tier, every field below the leading day count is two-digit zero-padded,
/// and fields are separated by colons.
pub open spec fn compact_spec(t: nat) -> Seq<char> {
    let sec = t % 60;
    let min = (t / 60) % 60;
    let hr = (t / 3600) % 24;
    let days = t / 86400;
    if days > 0 {
        dec_str(days) + ":"@ + pad2(hr) + ":"@ + pad2(min) + ":"@ + pad2(sec)
    } else if hr > 0 {
        pad2(hr) + ":"@ + pad2(min) + ":"@ + pad2(sec)
    } else if min > 0 {
        pad2(min) + ":"@ + pad2(sec)
    } else {
        pad2(sec)
    }
}

/// The verbose rendering of `t` seconds: the same tier selection, written as
/// comma-separated `<value> Unit` phrases down to seconds.
pub open spec fn verbose_spec(t: nat) -> Seq<char> {
    let sec = t % 60;
    let min = (t / 60) % 60;
    let hr = (t / 3600) % 24;
    let days = t / 86400;
    if days > 0 {
        dec_str(days) + " Days, "@ + dec_str(hr) + " Hours, "@ + dec_str(min) + " Minutes, "@
            + dec_str(sec) + " Seconds"@
    } else if hr > 0 {
        dec_str(hr) + " Hours, "@ + dec_str(min) + " Minutes, "@ + dec_str(sec) + " Seconds"@
    } else if min > 0 {
        dec_str(min) + " Minutes, "@ + dec_str(sec) + " Seconds"@
    } else {
        dec_str(sec) + " Seconds"@
    }
}

/// Format `t` seconds in the compact presentation.
pub fn compact_format(t: usize) -> (r: String)
    ensures
        r@ == compact_spec(t as nat),
{
    let sec = t % 60;
    let min = (t / 60) % 60;
    let hr = (t / 3600) % 24;
    let days = t / 86400;

    if days > 0 {
        let mut r = dec_string(days);
        r.append(":");
        r.append(pad2_string(hr).as_str());
        r.append(":");
        r.append(pad2_string(min).as_str());
        r.append(":");
        r.append(pad2_string(sec).as_str());
        proof {
            assert(r@ =~= compact_spec(t as nat));
        }
        r
    } else if hr > 0 {
        let mut r = pad2_string(hr);
        r.append(":");
        r.append(pad2_string(min).as_str());
        r.append(":");
        r.append(pad2_string(sec).as_str());
        proof {
            assert(r@ =~= compact_spec(t as nat));
        }
        r
    } else if min > 0 {
        let mut r = pad2_string(min);
        r.append(":");
        r.append(pad2_string(sec).as_str());
        proof {
            assert(r@ =~= compact_spec(t as nat));
        }
        r
    } else {
        pad2_string(sec)
    }
}

/// Format `t` seconds in the verbose presentation.
pub fn verbose_format(t: usize) -> (r: String)
    ensures
        r@ == verbose_spec(t as nat),
{
    let sec = t % 60;
    let min = (t / 60) % 60;
    let hr = (t / 3600) % 24;
    let days = t / 86400;

    if days > 0 {
        let mut r = dec_string(days);
        r.append(" Days, ");
        r.append(dec_string(hr).as_str());
        r.append(" Hours, ");
        r.append(dec_string(min).as_str());
        r.append(" Minutes, ");
        r.append(dec_string(sec).as_str());
        r.append(" Seconds");
        proof {
            assert(r@ =~= verbose_spec(t as nat));
        }
        r
    } else if hr > 0 {
        let mut r = dec_string(hr);
        r.append(" Hours, ");
        r.append(dec_string(min).as_str());
        r.append(" Minutes, ");
        r.append(dec_string(sec).as_str());
        r.append(" Seconds");
        proof {
            assert(r@ =~= verbose_spec(t as nat));
        }
        r
    } else if min > 0 {
        let mut r = dec_string(min);
        r.append(" Minutes, ");
        r.append(dec_string(sec).as_str());
        r.append(" Seconds");
        proof {
            assert(r@ =~= verbose_spec(t as nat));
        }
        r
    } else {
        let mut r = dec_string(sec);
        r.append(" Seconds");
        proof {
            assert(r@ =~= verbose_spec(t as nat));
        }
        r
    }
}

} // verus!
