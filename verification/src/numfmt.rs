//! Decimal rendering of the integer parameters that become flag tokens.
//!
//! The counts an operation appends after a flag (context lines, thread
//! count) travel as plain tokens, so the library renders them itself and
//! the rendering is pinned down by `dec_rep` / `int_rep`.

use vstd::prelude::*;
use vstd::string::StringExecFns;

verus! {

/// The character of one decimal digit.
pub open spec fn dec_digit(d: nat) -> char
    recommends
        d < 10,
{
    if d == 0 {
        '0'
    } else if d == 1 {
        '1'
    } else if d == 2 {
        '2'
    } else if d == 3 {
        '3'
    } else if d == 4 {
        '4'
    } else if d == 5 {
        '5'
    } else if d == 6 {
        '6'
    } else if d == 7 {
        '7'
    } else if d == 8 {
        '8'
    } else {
        '9'
    }
}

/// The decimal rendering of a natural number, most significant digit
/// first and without leading zeros (except for zero itself).
pub open spec fn dec_rep(n: nat) -> Seq<char>
    decreases n,
{
    if n < 10 {
        seq![dec_digit(n)]
    } else {
        dec_rep(n / 10) + seq![dec_digit(n % 10)]
    }
}

/// The decimal rendering of an integer: a leading minus sign for
/// negative values, `dec_rep` for the magnitude.
pub open spec fn int_rep(n: int) -> Seq<char> {
    if n < 0 {
        seq!['-'] + dec_rep((-n) as nat)
    } else {
        dec_rep(n as nat)
    }
}

/// The single-character token of one decimal digit.
fn digit_str(d: u64) -> (s: &'static str)
    requires
        d < 10,
    ensures
        s@ == seq![dec_digit(d as nat)],
{
    proof {
        reveal_strlit("0");
        reveal_strlit("1");
        reveal_strlit("2");
        reveal_strlit("3");
        reveal_strlit("4");
        reveal_strlit("5");
        reveal_strlit("6");
        reveal_strlit("7");
        reveal_strlit("8");
        reveal_strlit("9");
    }
    if d == 0 {
        proof { assert("0"@ =~= seq![dec_digit(0)]); }
        "0"
    } else if d == 1 {
        proof { assert("1"@ =~= seq![dec_digit(1)]); }
        "1"
    } else if d == 2 {
        proof { assert("2"@ =~= seq![dec_digit(2)]); }
        "2"
    } else if d == 3 {
        proof { assert("3"@ =~= seq![dec_digit(3)]); }
        "3"
    } else if d == 4 {
        proof { assert("4"@ =~= seq![dec_digit(4)]); }
        "4"
    } else if d == 5 {
        proof { assert("5"@ =~= seq![dec_digit(5)]); }
        "5"
    } else if d == 6 {
        proof { assert("6"@ =~= seq![dec_digit(6)]); }
        "6"
    } else if d == 7 {
        proof { assert("7"@ =~= seq![dec_digit(7)]); }
        "7"
    } else if d == 8 {
        proof { assert("8"@ =~= seq![dec_digit(8)]); }
        "8"
    } else {
        proof { assert("9"@ =~= seq![dec_digit(9)]); }
        "9"
    }
}

/// Renders an unsigned value in decimal.
pub fn u64_dec_string(n: u64) -> (s: String)
    ensures
        s@ == dec_rep(n as nat),
    decreases n,
{
    if n < 10 {
        let s = digit_str(n).to_owned();
        proof {
            assert(s@ =~= dec_rep(n as nat));
        }
        s
    } else {
        assert(n / 10 < n);
        let mut s = u64_dec_string(n / 10);
        let d = digit_str(n % 10);
        s.append(d);
        proof {
            assert(s@ =~= dec_rep(n as nat));
        }
        s
    }
}

/// Renders a signed value in decimal, with a leading minus sign when
/// the value is negative.
pub fn i32_dec_string(n: i32) -> (s: String)
    ensures
        s@ == int_rep(n as int),
{
    if n < 0 {
        let mag: u64 = (-(n as i64)) as u64;
        assert(mag as int == -(n as int));
        let mut s = "-".to_owned();
        let rest = u64_dec_string(mag);
        s.append(rest.as_str());
        proof {
            reveal_strlit("-");
            assert(s@ =~= int_rep(n as int));
        }
        s
    } else {
        u64_dec_string(n as u64)
    }
}

} // verus!
