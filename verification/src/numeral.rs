//! Decimal numerals: the spec-level decimal form of an integer and the
//! executable rendering used when a result or error code is embedded in a
//! diagnostic line.

use vstd::prelude::*;
use vstd::string::StringExecFns;

verus! {

/// The character standing for one decimal digit.
pub open spec fn digit_char(d: nat) -> char {
    if d == 0 {
        '0'
    } else if d == 1 {
        '1'
    } else if d == 2 {
        '2'
    } else if d == 3 {
        '3'
    } else if d == 4 {
        '4'
    } else if d == 5 {
        '5'
    } else if d == 6 {
        '6'
    } else if d == 7 {
        '7'
    } else if d == 8 {
        '8'
    } else {
        '9'
    }
}

/// The decimal numeral of `n`, most significant digit first, without leading
/// zeros (the numeral of zero is the single digit `0`).
pub open spec fn dec_numeral(n: nat) -> Seq<char>
    decreases n,
{
    if n < 10 {
        seq![digit_char(n)]
    } else {
        dec_numeral(n / 10) + seq![digit_char(n % 10)]
    }
}

/// The decimal numeral of a signed value: the numeral of its magnitude,
/// preceded by a minus sign when the value is negative.
pub open spec fn signed_dec_numeral(i: int) -> Seq<char> {
    if i >= 0 {
        dec_numeral(i as nat)
    } else {
        seq!['-'] + dec_numeral((-i) as nat)
    }
}

/// The one-character string holding a single decimal digit.
fn digit_string(d: u64) -> (s: &'static str)
    requires
        d < 10,
    ensures
        s@ == seq![digit_char(d as nat)],
{
    let s: &'static str = if d == 0 {
        "0"
    } else if d == 1 {
        "1"
    } else if d == 2 {
        "2"
    } else if d == 3 {
        "3"
    } else if d == 4 {
        "4"
    } else if d == 5 {
        "5"
    } else if d == 6 {
        "6"
    } else if d == 7 {
        "7"
    } else if d == 8 {
        "8"
    } else {
        "9"
    };
    proof {
        reveal_strlit("0");
        reveal_strlit("1");
        reveal_strlit("2");
        reveal_strlit("3");
        reveal_strlit("4");
        reveal_strlit("5");
        reveal_strlit("6");
        reveal_strlit("7");
        reveal_strlit("8");
        reveal_strlit("9");
        assert(s@ =~= seq![digit_char(d as nat)]);
    }
    s
}

/// Renders `n` as its decimal numeral.
pub fn u64_dec_string(n: u64) -> (s: String)
    ensures
        s@ == dec_numeral(n as nat),
    decreases n,
{
    if n < 10 {
        digit_string(n).to_owned()
    } else {
        let mut s = u64_dec_string(n / 10);
        s.append(digit_string(n % 10));
        proof {
            assert(s@ =~= dec_numeral(n as nat));
        }
        s
    }
}

/// Renders `n` as its decimal numeral.
pub fn u32_dec_string(n: u32) -> (s: String)
    ensures
        s@ == dec_numeral(n as nat),
{
    u64_dec_string(n as u64)
}

/// Renders `n` as its decimal numeral, with a minus sign when negative.
pub fn isize_dec_string(n: isize) -> (s: String)
    ensures
        s@ == signed_dec_numeral(n as int),
{
    if n >= 0 {
        u64_dec_string(n as u64)
    } else {
        let wide: i128 = n as i128;
        let magnitude: u64 = (-wide) as u64;
        let mut s = "-".to_owned();
        let digits = u64_dec_string(magnitude);
        s.append(digits.as_str());
        proof {
            reveal_strlit("-");
            assert(s@ =~= signed_dec_numeral(n as int));
        }
        s
    }
}

} // verus!
