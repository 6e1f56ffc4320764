//! Rendering of durations as `minutes:seconds.centiseconds` text.

use vstd::prelude::*;
use vstd::string::*;

verus! {

/// The decimal digit `d` as a character; meaningful for `0 <= d < 10`.
pub open spec fn spec_digit(d: int) -> char {
    if d == 0 {
        '0'
    } else if d == 1 {
        '1'
    } else if d == 2 {
        '2'
    } else if d == 3 {
        '3'
    } else if d == 4 {
        '4'
    } else if d == 5 {
        '5'
    } else if d == 6 {
        '6'
    } else if d == 7 {
        '7'
    } else if d == 8 {
        '8'
    } else {
        '9'
    }
}

/// The decimal digits of `n`, most significant first.
pub open spec fn spec_dec_digits(n: int) -> Seq<char>
    decreases n,
{
    if n < 10 {
        seq![spec_digit(n)]
    } else {
        spec_dec_digits(n / 10).push(spec_digit(n % 10))
    }
}

/// The decimal digits of `n`, zero-padded on the left to at least two.
pub open spec fn spec_pad2(n: int) -> Seq<char> {
    if n < 10 {
        seq!['0', spec_digit(n)]
    } else {
        spec_dec_digits(n)
    }
}

/// `duration_ms` rendered as `MM:SS.CC`: whole minutes rounded to the
/// nearest minute (half up), then the remaining milliseconds rounded to
/// centiseconds (half up), shown as seconds and centiseconds.
pub open spec fn spec_format_duration(duration_ms: u64) -> Seq<char> {
    let minutes = duration_ms / 60000 + if duration_ms % 60000 >= 30000 {
        1int
    } else {
        0int
    };
    let centis = (duration_ms % 60000 + 5) / 10;
    spec_pad2(minutes) + seq![':'] + spec_pad2(centis / 100) + seq!['.'] + spec_pad2(centis % 100)
}

fn digit_str(d: u64) -> (r: &'static str)
    requires
        d < 10,
    ensures
        r@ == seq![spec_digit(d as int)],
{
    proof {
        reveal_strlit("0");
        reveal_strlit("1");
        reveal_strlit("2");
        reveal_strlit("3");
        reveal_strlit("4");
        reveal_strlit("5");
        reveal_strlit("6");
        reveal_strlit("7");
        reveal_strlit("8");
        reveal_strlit("9");
    }
    let r = if d == 0 {
        "0"
    } else if d == 1 {
        "1"
    } else if d == 2 {
        "2"
    } else if d == 3 {
        "3"
    } else if d == 4 {
        "4"
    } else if d == 5 {
        "5"
    } else if d == 6 {
        "6"
    } else if d == 7 {
        "7"
    } else if d == 8 {
        "8"
    } else {
        "9"
    };
    proof {
        assert(r@ =~= seq![spec_digit(d as int)]);
    }
    r
}

fn dec_str(n: u64) -> (r: String)
    ensures
        r@ == spec_dec_digits(n as int),
    decreases n,
{
    if n < 10 {
        String::from_str(digit_str(n))
    } else {
        let mut s = dec_str(n / 10);
        s.append(digit_str(n % 10));
        proof {
            assert(s@ =~= spec_dec_digits(n as int));
        }
        s
    }
}

fn pad2(n: u64) -> (r: String)
    ensures
        r@ == spec_pad2(n as int),
{
    if n < 10 {
        let mut s = String::from_str("0");
        s.append(digit_str(n));
        proof {
            reveal_strlit("0");
            assert(s@ =~= spec_pad2(n as int));
        }
        s
    } else {
        dec_str(n)
    }
}

/// Formats a duration, given in milliseconds, as minutes, seconds and
/// centiseconds, e.g. `01:02.55`.
pub fn format_duration(duration_ms: u64) -> (r: String)
    ensures
        r@ == spec_format_duration(duration_ms),
{
    let rem: u64 = duration_ms % 60000;
    let minutes: u64 = duration_ms / 60000 + if rem >= 30000 {
        1
    } else {
        0
    };
    let centis: u64 = (rem + 5) / 10;
    let mut s = pad2(minutes);
    s.append(":");
    let secs = pad2(centis / 100);
    s.append(secs.as_str());
    s.append(".");
    let frac = pad2(centis % 100);
    s.append(frac.as_str());
    proof {
        reveal_strlit(":");
        reveal_strlit(".");
        assert(s@ =~= spec_format_duration(duration_ms));
    }
    s
}

} // verus!
