//! Formatting of durations for the player interface.

use vstd::prelude::*;

verus! {

use vstd::string::StringExecFns;

/// How a duration is laid out: with hours only when needed, or always.
#[derive(Debug, Clone, Copy, PartialEq, Eq, Structural)]
pub enum TimeFormat {
    Minutes,
    Hours,
}

/// The character for one decimal digit.
pub open spec fn digit_char(d: nat) -> char {
    if d == 0 {
        '0'
    } else if d == 1 {
        '1'
    } else if d == 2 {
        '2'
    } else if d == 3 {
        '3'
    } else if d == 4 {
        '4'
    } else if d == 5 {
        '5'
    } else if d == 6 {
        '6'
    } else if d == 7 {
        '7'
    } else if d == 8 {
        '8'
    } else {
        '9'
    }
}

/// The decimal digits of a number, most significant first, no padding.
pub open spec fn dec_digits(n: nat) -> Seq<char>
    decreases n,
{
    if n < 10 {
        seq![digit_char(n)]
    } else {
        dec_digits(n / 10) + seq![digit_char(n % 10)]
    }
}

/// The decimal digits of a number below one hundred, zero-padded to two.
pub open spec fn two_digits(n: nat) -> Seq<char> {
    if n < 10 {
        seq!['0', digit_char(n)]
    } else {
        dec_digits(n)
    }
}

/// The rendering of a duration: hours, minutes and seconds separated by
/// colons, minutes and seconds zero-padded to two digits. In the minutes
/// layout the hours part appears only when it is non-zero.
pub open spec fn spec_format_time(total_seconds: u64, style: TimeFormat) -> Seq<char> {
    let hours = total_seconds as nat / 3600;
    let mins = (total_seconds as nat % 3600) / 60;
    let secs = total_seconds as nat % 60;
    match style {
        TimeFormat::Minutes => if hours > 0 {
            dec_digits(hours) + seq![':'] + two_digits(mins) + seq![':'] + two_digits(secs)
        } else {
            dec_digits(mins) + seq![':'] + two_digits(secs)
        },
        TimeFormat::Hours => dec_digits(hours) + seq![':'] + two_digits(mins) + seq![':']
            + two_digits(secs),
    }
}

/// One decimal digit as text.
fn digit_str(d: u64) -> (s: &'static str)
    requires
        d < 10,
    ensures
        s@ == seq![digit_char(d as nat)],
{
    proof {
        reveal_strlit("0");
        reveal_strlit("1");
        reveal_strlit("2");
        reveal_strlit("3");
        reveal_strlit("4");
        reveal_strlit("5");
        reveal_strlit("6");
        reveal_strlit("7");
        reveal_strlit("8");
        reveal_strlit("9");
    }
    let s: &'static str = if d == 0 {
        "0"
    } else if d == 1 {
        "1"
    } else if d == 2 {
        "2"
    } else if d == 3 {
        "3"
    } else if d == 4 {
        "4"
    } else if d == 5 {
        "5"
    } else if d == 6 {
        "6"
    } else if d == 7 {
        "7"
    } else if d == 8 {
        "8"
    } else {
        "9"
    };
    proof {
        assert(s@ =~= seq![digit_char(d as nat)]);
    }
    s
}

/// A number in decimal, most significant digit first.
pub(crate) fn u64_dec(n: u64) -> (s: String)
    ensures
        s@ == dec_digits(n as nat),
    decreases n,
{
    if n < 10 {
        String::from_str(digit_str(n))
    } else {
        let mut s = u64_dec(n / 10);
        s.append(digit_str(n % 10));
        s
    }
}

/// A number below one hundred in decimal, zero-padded to two digits.
fn u64_two_digits(n: u64) -> (s: String)
    requires
        n < 100,
    ensures
        s@ == two_digits(n as nat),
{
    if n < 10 {
        let mut s = String::from_str("0");
        proof {
            reveal_strlit("0");
            assert(s@ =~= seq!['0']);
        }
        s.append(digit_str(n));
        proof {
            assert(s@ =~= two_digits(n as nat));
        }
        s
    } else {
        u64_dec(n)
    }
}

/// Renders a duration in seconds for display: `M:SS`, growing to
/// `H:MM:SS` once an hour is reached, or always `H:MM:SS` in the hours
/// layout.
pub fn format_time(total_seconds: u64, style: TimeFormat) -> (s: String)
    ensures
        s@ == spec_format_time(total_seconds, style),
{
    let hours = total_seconds / 3600;
    let mins = (total_seconds % 3600) / 60;
    let secs = total_seconds % 60;

    let show_hours = match style {
        TimeFormat::Minutes => hours > 0,
        TimeFormat::Hours => true,
    };

    proof {
        reveal_strlit(":");
    }

    if show_hours {
        let mut s = u64_dec(hours);
        s.append(":");
        let mm = u64_two_digits(mins);
        s.append(mm.as_str());
        s.append(":");
        let ss = u64_two_digits(secs);
        s.append(ss.as_str());
        proof {
            assert(s@ =~= spec_format_time(total_seconds, style));
        }
        s
    } else {
        let mut s = u64_dec(mins);
        s.append(":");
        let ss = u64_two_digits(secs);
        s.append(ss.as_str());
        proof {
            assert(s@ =~= spec_format_time(total_seconds, style));
        }
        s
    }
}

} // verus!
