//! Decimal rendering of the primitive payloads, used when a boundary
//! value is converted to its string form without calling into an engine.

use vstd::prelude::*;

use vstd::string::*;

verus! {

/// The character of a single decimal digit.
pub open spec fn digit_char(d: int) -> char {
    if d == 0 {
        '0'
    } else if d == 1 {
        '1'
    } else if d == 2 {
        '2'
    } else if d == 3 {
        '3'
    } else if d == 4 {
        '4'
    } else if d == 5 {
        '5'
    } else if d == 6 {
        '6'
    } else if d == 7 {
        '7'
    } else if d == 8 {
        '8'
    } else {
        '9'
    }
}

/// The decimal rendering of a natural number, most significant digit
/// first, without leading zeros (zero itself renders as one digit).
pub open spec fn dec_str(n: nat) -> Seq<char>
    decreases n,
{
    if n < 10 {
        seq![digit_char(n as int)]
    } else {
        dec_str(n / 10) + seq![digit_char((n % 10) as int)]
    }
}

/// The decimal rendering of an integer: a minus sign before the digits
/// when it is negative.
pub open spec fn dec_str_signed(v: int) -> Seq<char> {
    if v >= 0 {
        dec_str(v as nat)
    } else {
        seq!['-'] + dec_str((-v) as nat)
    }
}

/// A one-character string for a single decimal digit.
fn digit_str(d: u64) -> (s: &'static str)
    requires
        d < 10,
    ensures
        s@ =~= seq![digit_char(d as int)],
{
    proof {
        reveal_strlit("0");
        reveal_strlit("1");
        reveal_strlit("2");
        reveal_strlit("3");
        reveal_strlit("4");
        reveal_strlit("5");
        reveal_strlit("6");
        reveal_strlit("7");
        reveal_strlit("8");
        reveal_strlit("9");
    }
    if d == 0 {
        "0"
    } else if d == 1 {
        "1"
    } else if d == 2 {
        "2"
    } else if d == 3 {
        "3"
    } else if d == 4 {
        "4"
    } else if d == 5 {
        "5"
    } else if d == 6 {
        "6"
    } else if d == 7 {
        "7"
    } else if d == 8 {
        "8"
    } else {
        "9"
    }
}

/// Render an unsigned 64-bit integer in decimal.
pub fn u64_to_string(n: u64) -> (s: String)
    ensures
        s@ == dec_str(n as nat),
    decreases n,
{
    if n < 10 {
        String::from_str(digit_str(n))
    } else {
        let mut s = u64_to_string(n / 10);
        s.append(digit_str(n % 10));
        proof {
            assert(s@ =~= dec_str(n as nat));
        }
        s
    }
}

/// Render a signed 64-bit integer in decimal.
pub fn i64_to_string(v: i64) -> (s: String)
    ensures
        s@ == dec_str_signed(v as int),
{
    proof {
        reveal_strlit("-");
    }
    if v >= 0 {
        u64_to_string(v as u64)
    } else {
        // The magnitude of i64::MIN does not fit in i64, so step through
        // v + 1 before negating.
        let m: u64 = ((-(v + 1)) as u64) + 1;
        let mut s = String::from_str("-");
        let digits = u64_to_string(m);
        s.append(digits.as_str());
        proof {
            assert(s@ =~= dec_str_signed(v as int));
        }
        s
    }
}

/// Render a boolean as its keyword.
pub fn bool_to_string(b: bool) -> (s: String)
    ensures
        b ==> s@ =~= "true"@,
        !b ==> s@ =~= "false"@,
{
    if b {
        String::from_str("true")
    } else {
        String::from_str("false")
    }
}

} // verus!
