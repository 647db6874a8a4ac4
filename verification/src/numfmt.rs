//! Decimal rendering of the integer quantities that appear in filter
//! graphs and encoder arguments: plain integers, millisecond timestamps
//! printed as seconds, fixed-point speed factors, and four-decimal tempo
//! factors.

use vstd::prelude::*;
use vstd::string::StringExecFns;

verus! {

/// The character for one decimal digit.
pub open spec fn spec_digit_char(d: int) -> char {
    if d == 0 {
        '0'
    } else if d == 1 {
        '1'
    } else if d == 2 {
        '2'
    } else if d == 3 {
        '3'
    } else if d == 4 {
        '4'
    } else if d == 5 {
        '5'
    } else if d == 6 {
        '6'
    } else if d == 7 {
        '7'
    } else if d == 8 {
        '8'
    } else {
        '9'
    }
}

/// The decimal digits of a non-negative integer, most significant first,
/// with no leading zeros (zero itself is the single digit `0`).
pub open spec fn spec_dec(n: int) -> Seq<char>
    decreases n,
{
    if n < 10 {
        seq![spec_digit_char(n)]
    } else {
        spec_dec(n / 10) + seq![spec_digit_char(n % 10)]
    }
}

/// A fraction of a unit, given in thousandths (`0 < r < 1000`), printed
/// as up to three digits with trailing zeros removed: 500 prints as `5`,
/// 50 as `05`, 123 as `123`.
pub open spec fn spec_frac_milli(r: int) -> Seq<char> {
    if r % 10 != 0 {
        seq![spec_digit_char(r / 100), spec_digit_char(r / 10 % 10), spec_digit_char(r % 10)]
    } else if r % 100 != 0 {
        seq![spec_digit_char(r / 100), spec_digit_char(r / 10 % 10)]
    } else {
        seq![spec_digit_char(r / 100)]
    }
}

/// A quantity counted in thousandths, printed as a decimal number the
/// way the codec engine expects it: the integer part, then a fractional
/// part only if it is non-zero, with trailing zeros removed.
/// 1000 prints as `1`, 1500 as `1.5`, 1 as `0.001`.
pub open spec fn spec_milli(n: int) -> Seq<char> {
    if n % 1000 == 0 {
        spec_dec(n / 1000)
    } else {
        spec_dec(n / 1000) + seq!['.'] + spec_frac_milli(n % 1000)
    }
}

/// A quantity counted in ten-thousandths, printed with exactly four
/// decimal places: 20000 prints as `2.0000`, 12345 as `1.2345`.
pub open spec fn spec_fixed4(q: int) -> Seq<char> {
    spec_dec(q / 10000) + seq![
        '.',
        spec_digit_char(q / 1000 % 10),
        spec_digit_char(q / 100 % 10),
        spec_digit_char(q / 10 % 10),
        spec_digit_char(q % 10),
    ]
}

/// One decimal digit as a string slice.
fn digit_str(d: u64) -> (r: &'static str)
    requires
        d < 10,
    ensures
        r@ == seq![spec_digit_char(d as int)],
{
    let r: &'static str = match d {
        0 => "0",
        1 => "1",
        2 => "2",
        3 => "3",
        4 => "4",
        5 => "5",
        6 => "6",
        7 => "7",
        8 => "8",
        _ => "9",
    };
    proof {
        reveal_strlit("0");
        reveal_strlit("1");
        reveal_strlit("2");
        reveal_strlit("3");
        reveal_strlit("4");
        reveal_strlit("5");
        reveal_strlit("6");
        reveal_strlit("7");
        reveal_strlit("8");
        reveal_strlit("9");
        assert(r@ =~= seq![spec_digit_char(d as int)]);
    }
    r
}

/// A non-negative integer in decimal.
pub fn u64_to_dec(n: u64) -> (r: String)
    ensures
        r@ == spec_dec(n as int),
    decreases n,
{
    if n < 10 {
        digit_str(n).to_owned()
    } else {
        let mut s = u64_to_dec(n / 10);
        s.append(digit_str(n % 10));
        s
    }
}

/// A millisecond count printed in seconds: `1000` gives `1`,
/// `1500` gives `1.5`, `1` gives `0.001`.
pub fn ms_to_secs_str(ms: u64) -> (r: String)
    ensures
        r@ == spec_milli(ms as int),
{
    milli_to_str(ms)
}

/// A fixed-point thousandths quantity printed as a decimal number:
/// `2000` gives `2`, `1500` gives `1.5`.
pub fn milli_to_str(n: u64) -> (r: String)
    ensures
        r@ == spec_milli(n as int),
{
    let whole = n / 1000;
    let frac = n % 1000;
    let mut s = u64_to_dec(whole);
    if frac != 0 {
        s.append(".");
        proof {
            reveal_strlit(".");
            assert(s@ =~= spec_dec(n as int / 1000) + seq!['.']);
        }
        if frac % 10 != 0 {
            s.append(digit_str(frac / 100));
            s.append(digit_str(frac / 10 % 10));
            s.append(digit_str(frac % 10));
        } else if frac % 100 != 0 {
            s.append(digit_str(frac / 100));
            s.append(digit_str(frac / 10 % 10));
        } else {
            s.append(digit_str(frac / 100));
        }
        proof {
            assert(s@ =~= spec_milli(n as int));
        }
    }
    s
}

/// A ten-thousandths quantity printed with exactly four decimal places:
/// `20000` gives `2.0000`.
pub fn fixed4_to_str(q: u64) -> (r: String)
    ensures
        r@ == spec_fixed4(q as int),
{
    let mut s = u64_to_dec(q / 10000);
    s.append(".");
    s.append(digit_str(q / 1000 % 10));
    s.append(digit_str(q / 100 % 10));
    s.append(digit_str(q / 10 % 10));
    s.append(digit_str(q % 10));
    proof {
        reveal_strlit(".");
        assert(s@ =~= spec_fixed4(q as int));
    }
    s
}

} // verus!
