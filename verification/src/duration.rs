//! Formatting of second counts as human-readable day/hour/minute/second
//! strings, together with the decimal rendering of unsigned integers that
//! it is built on.

use vstd::prelude::*;
use vstd::string::StringExecFns;

verus! {

/// The character for a single decimal digit.
pub open spec fn digit_char(d: nat) -> char {
    if d == 0 {
        '0'
    } else if d == 1 {
        '1'
    } else if d == 2 {
        '2'
    } else if d == 3 {
        '3'
    } else if d == 4 {
        '4'
    } else if d == 5 {
        '5'
    } else if d == 6 {
        '6'
    } else if d == 7 {
        '7'
    } else if d == 8 {
        '8'
    } else {
        '9'
    }
}

/// The decimal rendering of a natural number, most significant digit first,
/// with no leading zeros (except for zero itself, rendered "0").
pub open spec fn dec_str(n: nat) -> Seq<char>
    decreases n,
{
    if n < 10 {
        seq![digit_char(n)]
    } else {
        dec_str(n / 10).push(digit_char(n % 10))
    }
}

fn digit_str(d: u64) -> (r: &'static str)
    requires
        d < 10,
    ensures
        r@ == seq![digit_char(d as nat)],
{
    proof {
        reveal_strlit("0");
        reveal_strlit("1");
        reveal_strlit("2");
        reveal_strlit("3");
        reveal_strlit("4");
        reveal_strlit("5");
        reveal_strlit("6");
        reveal_strlit("7");
        reveal_strlit("8");
        reveal_strlit("9");
    }
    let r: &'static str = if d == 0 {
        "0"
    } else if d == 1 {
        "1"
    } else if d == 2 {
        "2"
    } else if d == 3 {
        "3"
    } else if d == 4 {
        "4"
    } else if d == 5 {
        "5"
    } else if d == 6 {
        "6"
    } else if d == 7 {
        "7"
    } else if d == 8 {
        "8"
    } else {
        "9"
    };
    proof {
        assert(r@ =~= seq![digit_char(d as nat)]);
    }
    r
}

/// Renders an unsigned integer in decimal.
pub fn u64_string(n: u64) -> (r: String)
    ensures
        r@ == dec_str(n as nat),
    decreases n,
{
    if n < 10 {
        String::from_str(digit_str(n))
    } else {
        let mut r = u64_string(n / 10);
        r.append(digit_str(n % 10));
        proof {
            assert(r@ =~= dec_str((n / 10) as nat).push(digit_char((n % 10) as nat)));
        }
        r
    }
}

/// Return the quotient and remainder of two u64's.
pub fn div_rem(lhs: u64, rhs: u64) -> (r: (u64, u64))
    requires
        rhs != 0,
    ensures
        r.0 == lhs / rhs,
        r.1 == lhs % rhs,
{
    (lhs / rhs, lhs % rhs)
}

/// Whole days in a second count.
pub open spec fn days_of(s: nat) -> nat {
    s / 86400
}

/// Whole hours left after the days are taken out.
pub open spec fn hours_of(s: nat) -> nat {
    (s % 86400) / 3600
}

/// Seconds left after days and hours are taken out.
pub open spec fn rem_after_hours(s: nat) -> nat {
    (s % 86400) % 3600
}

/// Whole minutes left after days and hours are taken out.
pub open spec fn minutes_of(s: nat) -> nat {
    rem_after_hours(s) / 60
}

/// Seconds left after days, hours and minutes are taken out.
pub open spec fn seconds_of(s: nat) -> nat {
    rem_after_hours(s) % 60
}

/// The rendering of a second count: the highest non-zero unit and every
/// unit below it, in the order days, hours, minutes, seconds; a bare
/// second count when less than a minute.
pub open spec fn duration_seq(s: nat) -> Seq<char> {
    if days_of(s) > 0 {
        dec_str(days_of(s)) + seq!['d'] + dec_str(hours_of(s)) + seq!['h'] + dec_str(minutes_of(s))
            + seq!['m'] + dec_str(seconds_of(s)) + seq!['s']
    } else if hours_of(s) > 0 {
        dec_str(hours_of(s)) + seq!['h'] + dec_str(minutes_of(s)) + seq!['m'] + dec_str(
            seconds_of(s),
        ) + seq!['s']
    } else if minutes_of(s) > 0 {
        dec_str(minutes_of(s)) + seq!['m'] + dec_str(seconds_of(s)) + seq!['s']
    } else {
        dec_str(seconds_of(s)) + seq!['s']
    }
}

/// Formats n seconds as days, hours, minutes and seconds.
pub fn pretty_duration(s: u64) -> (r: String)
    ensures
        r@ == duration_seq(s as nat),
{
    proof {
        reveal_strlit("d");
        reveal_strlit("h");
        reveal_strlit("m");
        reveal_strlit("s");
    }
    let (days, rest) = div_rem(s, 86400);
    let (hours, rest) = div_rem(rest, 3600);
    let (minutes, secs) = div_rem(rest, 60);
    let mut out = String::new();
    if days > 0 {
        out.append(u64_string(days).as_str());
        out.append("d");
    }
    if days > 0 || hours > 0 {
        out.append(u64_string(hours).as_str());
        out.append("h");
    }
    if days > 0 || hours > 0 || minutes > 0 {
        out.append(u64_string(minutes).as_str());
        out.append("m");
    }
    out.append(u64_string(secs).as_str());
    out.append("s");
    proof {
        assert(Seq::<char>::empty() + dec_str(days as nat) =~= dec_str(days as nat));
        assert(Seq::<char>::empty() + dec_str(hours as nat) =~= dec_str(hours as nat));
        assert(Seq::<char>::empty() + dec_str(minutes as nat) =~= dec_str(minutes as nat));
        assert(Seq::<char>::empty() + dec_str(secs as nat) =~= dec_str(secs as nat));
        assert(("d")@ =~= seq!['d']);
        assert(("h")@ =~= seq!['h']);
        assert(("m")@ =~= seq!['m']);
        assert(("s")@ =~= seq!['s']);
    }
    out
}

/// The unit decomposition behind `duration_seq` is sound: each unit below
/// the largest stays under its modulus, and the units recompose to the
/// original second count.
pub proof fn lemma_duration_decomposition(s: nat)
    ensures
        hours_of(s) < 24,
        minutes_of(s) < 60,
        seconds_of(s) < 60,
        days_of(s) * 86400 + hours_of(s) * 3600 + minutes_of(s) * 60 + seconds_of(s) == s,
{
    assert(s == 86400 * (s / 86400) + s % 86400) by (nonlinear_arith);
    assert(s % 86400 == 3600 * ((s % 86400) / 3600) + (s % 86400) % 3600) by (nonlinear_arith);
    assert((s % 86400) % 3600 == 60 * (((s % 86400) % 3600) / 60) + ((s % 86400) % 3600) % 60)
        by (nonlinear_arith);
    assert((s % 86400) / 3600 < 24) by (nonlinear_arith);
    assert(((s % 86400) % 3600) / 60 < 60) by (nonlinear_arith);
}

} // verus!
