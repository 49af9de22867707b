//! Rendering of the monitor's output values.
//!
//! One status line is printed per successful sample: the host, this
//! round's latency in whole milliseconds, and the running average in
//! milliseconds with exactly two decimal places. The rendered text is
//! specified character by character, so the line the loop prints is
//! pinned down by the contracts.

use crate::sched::StatusUpdate;
use vstd::prelude::*;

verus! {

/// The character for one decimal digit.
pub open spec fn digit_char(d: int) -> char {
    if d == 0 {
        '0'
    } else if d == 1 {
        '1'
    } else if d == 2 {
        '2'
    } else if d == 3 {
        '3'
    } else if d == 4 {
        '4'
    } else if d == 5 {
        '5'
    } else if d == 6 {
        '6'
    } else if d == 7 {
        '7'
    } else if d == 8 {
        '8'
    } else {
        '9'
    }
}

/// The decimal digits of a whole number, most significant first, with no
/// leading zeros except for the number zero itself.
pub open spec fn dec_digits(n: int) -> Seq<char>
    recommends
        n >= 0,
    decreases n,
{
    if n < 10 {
        seq![digit_char(n)]
    } else {
        dec_digits(n / 10).push(digit_char(n % 10))
    }
}

/// A count of hundredths rendered as a whole part, a point, and exactly
/// two decimal places.
pub open spec fn centi_display(centi: int) -> Seq<char>
    recommends
        centi >= 0,
{
    dec_digits(centi / 100) + seq!['.', digit_char((centi % 100) / 10), digit_char(centi % 10)]
}

/// The status line printed for one sample.
pub open spec fn status_line(host: Seq<char>, latency_ms: int, avg_centi_ms: int) -> Seq<char> {
    "Host: "@ + host + ", Latency: "@ + dec_digits(latency_ms) + "ms, Avg Latency: "@
        + centi_display(avg_centi_ms) + "ms"@
}

/// The one-character string for a decimal digit.
fn digit_str(d: u128) -> (r: &'static str)
    requires
        d < 10,
    ensures
        r@ =~= seq![digit_char(d as int)],
{
    if d == 0 {
        let s = "0";
        proof {
            reveal_strlit("0");
        }
        s
    } else if d == 1 {
        let s = "1";
        proof {
            reveal_strlit("1");
        }
        s
    } else if d == 2 {
        let s = "2";
        proof {
            reveal_strlit("2");
        }
        s
    } else if d == 3 {
        let s = "3";
        proof {
            reveal_strlit("3");
        }
        s
    } else if d == 4 {
        let s = "4";
        proof {
            reveal_strlit("4");
        }
        s
    } else if d == 5 {
        let s = "5";
        proof {
            reveal_strlit("5");
        }
        s
    } else if d == 6 {
        let s = "6";
        proof {
            reveal_strlit("6");
        }
        s
    } else if d == 7 {
        let s = "7";
        proof {
            reveal_strlit("7");
        }
        s
    } else if d == 8 {
        let s = "8";
        proof {
            reveal_strlit("8");
        }
        s
    } else {
        let s = "9";
        proof {
            reveal_strlit("9");
        }
        s
    }
}

/// A whole number rendered in decimal.
pub fn decimal_string(n: u128) -> (r: String)
    ensures
        r@ == dec_digits(n as int),
    decreases n,
{
    if n < 10 {
        String::from_str(digit_str(n))
    } else {
        let mut s = decimal_string(n / 10);
        s.append(digit_str(n % 10));
        proof {
            assert(s@ =~= dec_digits((n / 10) as int).push(digit_char((n % 10) as int)));
        }
        s
    }
}

/// A count of hundredths rendered with exactly two decimal places, the
/// way the running average is printed.
pub fn centi_string(centi: u128) -> (r: String)
    ensures
        r@ == centi_display(centi as int),
{
    let mut s = decimal_string(centi / 100);
    s.append(".");
    s.append(digit_str((centi % 100) / 10));
    s.append(digit_str(centi % 10));
    proof {
        reveal_strlit(".");
        assert("."@ =~= seq!['.']);
        assert(s@ =~= centi_display(centi as int));
    }
    s
}

/// The status line for one sample of the given host, exactly as printed.
pub fn format_status_line(host: &str, update: StatusUpdate) -> (r: String)
    ensures
        r@ == status_line(host@, update.latency_ms as int, update.avg_centi_ms as int),
{
    let mut s = String::from_str("Host: ");
    s.append(host);
    s.append(", Latency: ");
    let latency = decimal_string(update.latency_ms as u128);
    s.append(latency.as_str());
    s.append("ms, Avg Latency: ");
    let avg = centi_string(update.avg_centi_ms);
    s.append(avg.as_str());
    s.append("ms");
    proof {
        assert(s@ =~= status_line(host@, update.latency_ms as int, update.avg_centi_ms as int));
    }
    s
}

} // verus!
