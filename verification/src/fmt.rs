//! Decimal rendering of integers, verified against a digit-sequence spec.

use vstd::prelude::*;
use vstd::string::StringExecFns;

verus! {

/// The character for a single decimal digit.
pub open spec fn spec_digit_char(d: int) -> char {
    if d == 0 {
        '0'
    } else if d == 1 {
        '1'
    } else if d == 2 {
        '2'
    } else if d == 3 {
        '3'
    } else if d == 4 {
        '4'
    } else if d == 5 {
        '5'
    } else if d == 6 {
        '6'
    } else if d == 7 {
        '7'
    } else if d == 8 {
        '8'
    } else {
        '9'
    }
}

/// The decimal digit string of a natural number, most significant digit
/// first, with no leading zeros (a lone `0` for zero).
pub open spec fn spec_udec(n: nat) -> Seq<char>
    decreases n,
{
    if n < 10 {
        seq![spec_digit_char(n as int)]
    } else {
        spec_udec(n / 10) + seq![spec_digit_char((n % 10) as int)]
    }
}

/// The decimal string of an integer: a `-` sign before the magnitude for
/// negative values.
pub open spec fn spec_idec(v: int) -> Seq<char> {
    if v < 0 {
        seq!['-'] + spec_udec((-v) as nat)
    } else {
        spec_udec(v as nat)
    }
}

/// The one-character string for a single decimal digit.
fn digit_str(d: u64) -> (r: &'static str)
    requires
        d < 10,
    ensures
        r@ == seq![spec_digit_char(d as int)],
{
    proof {
        reveal_strlit("0");
        reveal_strlit("1");
        reveal_strlit("2");
        reveal_strlit("3");
        reveal_strlit("4");
        reveal_strlit("5");
        reveal_strlit("6");
        reveal_strlit("7");
        reveal_strlit("8");
        reveal_strlit("9");
    }
    let r: &'static str = match d {
        0 => "0",
        1 => "1",
        2 => "2",
        3 => "3",
        4 => "4",
        5 => "5",
        6 => "6",
        7 => "7",
        8 => "8",
        _ => "9",
    };
    proof {
        assert(r@ =~= seq![spec_digit_char(d as int)]);
    }
    r
}

/// The decimal string of an unsigned number.
pub fn u64_string(n: u64) -> (r: String)
    ensures
        r@ == spec_udec(n as nat),
    decreases n,
{
    if n < 10 {
        digit_str(n).to_owned()
    } else {
        proof {
            lemma_div_10_shrinks(n as int);
        }
        let mut r = u64_string(n / 10);
        r.append(digit_str(n % 10));
        r
    }
}

/// Dividing a number of ten or more by ten strictly shrinks it.
proof fn lemma_div_10_shrinks(n: int)
    requires
        n >= 10,
    ensures
        1 <= n / 10 < n,
        n % 10 < 10,
{
    assert(1 <= n / 10 < n && n % 10 < 10) by (nonlinear_arith)
        requires n >= 10,
    ;
}

/// The decimal string of a signed number.
pub fn i64_string(v: i64) -> (r: String)
    ensures
        r@ == spec_idec(v as int),
{
    if v >= 0 {
        u64_string(v as u64)
    } else {
        let m: u64 = (-(v as i128)) as u64;
        let digits = u64_string(m);
        proof {
            reveal_strlit("-");
        }
        let mut r = String::from_str("-");
        r.append(digits.as_str());
        proof {
            assert(r@ =~= seq!['-'] + spec_udec((-(v as int)) as nat));
        }
        r
    }
}

} // verus!
