//! Decimal rendering of integers, matching the text Rust's default
//! integer formatting produces: no leading zeros, a leading `-` for
//! negative values and no sign otherwise.

use vstd::prelude::*;
use vstd::string::StringExecFns;

verus! {

/// The character for one decimal digit.
pub open spec fn digit_char(d: nat) -> char {
    if d == 0 {
        '0'
    } else if d == 1 {
        '1'
    } else if d == 2 {
        '2'
    } else if d == 3 {
        '3'
    } else if d == 4 {
        '4'
    } else if d == 5 {
        '5'
    } else if d == 6 {
        '6'
    } else if d == 7 {
        '7'
    } else if d == 8 {
        '8'
    } else {
        '9'
    }
}

/// The decimal digits of `n`, most significant first, without leading
/// zeros (`0` itself is the single digit `0`).
pub open spec fn dec_digits(n: nat) -> Seq<char>
    decreases n,
{
    if n < 10 {
        seq![digit_char(n)]
    } else {
        dec_digits(n / 10).push(digit_char(n % 10))
    }
}

/// The decimal text of `v`: `-` followed by the digits of its magnitude
/// when `v` is negative, the digits alone otherwise.
pub open spec fn dec_int(v: int) -> Seq<char> {
    if v < 0 {
        seq!['-'] + dec_digits((-v) as nat)
    } else {
        dec_digits(v as nat)
    }
}

/// The one-character string for a decimal digit.
fn digit_str(d: u64) -> (r: &'static str)
    requires
        d < 10,
    ensures
        r@ == seq![digit_char(d as nat)],
{
    proof {
        reveal_strlit("0");
        reveal_strlit("1");
        reveal_strlit("2");
        reveal_strlit("3");
        reveal_strlit("4");
        reveal_strlit("5");
        reveal_strlit("6");
        reveal_strlit("7");
        reveal_strlit("8");
        reveal_strlit("9");
    }
    let r = match d {
        0 => "0",
        1 => "1",
        2 => "2",
        3 => "3",
        4 => "4",
        5 => "5",
        6 => "6",
        7 => "7",
        8 => "8",
        _ => "9",
    };
    proof {
        assert(r@ =~= seq![digit_char(d as nat)]);
    }
    r
}

/// Appends the decimal digits of `v` to `s`.
fn push_dec_digits(s: &mut String, v: u64)
    ensures
        final(s)@ == old(s)@ + dec_digits(v as nat),
    decreases v,
{
    if v < 10 {
        s.append(digit_str(v));
        proof {
            assert(s@ =~= old(s)@ + dec_digits(v as nat));
        }
    } else {
        proof {
            assert(v / 10 < v) by (nonlinear_arith)
                requires
                    v >= 10,
            ;
        }
        push_dec_digits(s, v / 10);
        s.append(digit_str(v % 10));
        proof {
            assert(s@ =~= old(s)@ + dec_digits(v as nat));
        }
    }
}

/// The decimal text of `v`, as Rust's integer formatting writes it.
pub fn i64_to_dec_string(v: i64) -> (r: String)
    requires
        i64::MIN < v,
    ensures
        r@ == dec_int(v as int),
{
    let mut s = String::new();
    if v < 0 {
        s.append("-");
        let mag: u64 = (-v) as u64;
        push_dec_digits(&mut s, mag);
        proof {
            reveal_strlit("-");
            assert(s@ =~= dec_int(v as int));
        }
    } else {
        push_dec_digits(&mut s, v as u64);
    }
    s
}

} // verus!
