//! Decimal rendering of integers, used to build display strings.

use vstd::prelude::*;

use crate::counter::{digits_value, is_digit};

verus! {

/// The character of a decimal digit.
pub open spec fn digit_char(d: nat) -> char {
    (48 + d) as char
}

/// Decimal digits of a natural number, most significant first, without leading zeros.
pub open spec fn decimal_digits(n: nat) -> Seq<char>
    decreases n,
{
    if n < 10 {
        seq![digit_char(n)]
    } else {
        decimal_digits(n / 10).push(digit_char(n % 10))
    }
}

/// Decimal rendering of an integer, with a leading `-` when negative.
pub open spec fn decimal(i: int) -> Seq<char> {
    if i < 0 {
        seq!['-'] + decimal_digits((-i) as nat)
    } else {
        decimal_digits(i as nat)
    }
}

fn digit_str(d: u64) -> (r: &'static str)
    requires
        d < 10,
    ensures
        r@ == seq![digit_char(d as nat)],
{
    proof {
        reveal_strlit("0");
        reveal_strlit("1");
        reveal_strlit("2");
        reveal_strlit("3");
        reveal_strlit("4");
        reveal_strlit("5");
        reveal_strlit("6");
        reveal_strlit("7");
        reveal_strlit("8");
        reveal_strlit("9");
    }
    match d {
        0 => "0",
        1 => "1",
        2 => "2",
        3 => "3",
        4 => "4",
        5 => "5",
        6 => "6",
        7 => "7",
        8 => "8",
        _ => "9",
    }
}

fn digits_string(n: u64) -> (s: String)
    ensures
        s@ == decimal_digits(n as nat),
    decreases n,
{
    if n < 10 {
        String::from_str(digit_str(n))
    } else {
        let mut s = digits_string(n / 10);
        s.append(digit_str(n % 10));
        s
    }
}

/// Renders `i` in decimal, as `{}` formatting does.
pub fn decimal_string(i: i32) -> (s: String)
    ensures
        s@ == decimal(i as int),
{
    let wide: i64 = i as i64;
    if wide < 0 {
        let mut s = String::from_str("-");
        proof {
            reveal_strlit("-");
        }
        let digits = digits_string((-wide) as u64);
        s.append(digits.as_str());
        s
    } else {
        digits_string(wide as u64)
    }
}

/// The decimal digits of `n` are digits whose value, read most significant
/// first, is `n`, with no leading zero.
pub proof fn lemma_decimal_digits(n: nat)
    ensures
        decimal_digits(n).len() >= 1,
        forall|k: int| 0 <= k < decimal_digits(n).len() ==> is_digit(#[trigger] decimal_digits(n)[k]),
        digits_value(decimal_digits(n)) == n,
        n >= 10 ==> decimal_digits(n)[0] != '0',
    decreases n,
{
    if n < 10 {
        let s = decimal_digits(n);
        assert(s.drop_last() =~= Seq::<char>::empty());
        assert(digit_char(n) as u32 == 48 + n);
        assert(digits_value(Seq::<char>::empty()) == 0);
        assert(s.last() == digit_char(n));
        assert(digits_value(s) == digits_value(s.drop_last()) * 10 + (s.last() as u32 - 48));
    } else {
        lemma_decimal_digits(n / 10);
        let p = decimal_digits(n / 10);
        let s = decimal_digits(n);
        assert(s.drop_last() =~= p);
        assert(digit_char(n % 10) as u32 == 48 + n % 10);
        assert(s.last() == digit_char(n % 10));
        assert(n == (n / 10) * 10 + n % 10);
        assert(digits_value(s) == digits_value(s.drop_last()) * 10 + (s.last() as u32 - 48));
        assert(s[0] == p[0]);
        if n / 10 < 10 {
            assert(digit_char(n / 10) as u32 == 48 + n / 10);
        }
        assert forall|k: int| 0 <= k < s.len() implies is_digit(#[trigger] s[k]) by {
            if k < p.len() {
                assert(s[k] == p[k]);
            }
        }
    }
}

/// Negative numbers are written with a leading `-` followed by the digits of
/// their magnitude; other numbers are written with their digits alone.
pub proof fn lemma_decimal_sign(i: int)
    ensures
        i < 0 ==> decimal(i)[0] == '-' && decimal(i).drop_first() == decimal_digits((-i) as nat),
        i >= 0 ==> decimal(i) == decimal_digits(i as nat) && decimal(i)[0] != '-',
{
    if i < 0 {
        assert((seq!['-'] + decimal_digits((-i) as nat)).drop_first() =~= decimal_digits((-i) as nat));
    } else {
        lemma_decimal_digits(i as nat);
        assert(is_digit(decimal(i)[0]));
    }
}

} // verus!
