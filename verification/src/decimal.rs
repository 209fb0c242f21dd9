//! Decimal rendering of integers, used to show offending native codes in
//! error messages.

use vstd::prelude::*;

verus! {

/// The character for one decimal digit.
pub open spec fn spec_digit_char(d: nat) -> char {
    if d == 0 {
        '0'
    } else if d == 1 {
        '1'
    } else if d == 2 {
        '2'
    } else if d == 3 {
        '3'
    } else if d == 4 {
        '4'
    } else if d == 5 {
        '5'
    } else if d == 6 {
        '6'
    } else if d == 7 {
        '7'
    } else if d == 8 {
        '8'
    } else {
        '9'
    }
}

/// The decimal digits of a nonnegative integer, most significant first.
pub open spec fn spec_unsigned_decimal(n: nat) -> Seq<char>
    decreases n,
{
    if n < 10 {
        seq![spec_digit_char(n)]
    } else {
        spec_unsigned_decimal(n / 10).push(spec_digit_char(n % 10))
    }
}

/// The decimal form of an integer, with a leading minus sign when negative.
pub open spec fn spec_decimal(n: int) -> Seq<char> {
    if n < 0 {
        seq!['-'] + spec_unsigned_decimal((-n) as nat)
    } else {
        spec_unsigned_decimal(n as nat)
    }
}

/// Appends the character of one decimal digit.
fn push_digit(s: &mut String, d: u64)
    requires
        d < 10,
    ensures
        final(s)@ == old(s)@.push(spec_digit_char(d as nat)),
{
    proof {
        reveal_strlit("0");
        reveal_strlit("1");
        reveal_strlit("2");
        reveal_strlit("3");
        reveal_strlit("4");
        reveal_strlit("5");
        reveal_strlit("6");
        reveal_strlit("7");
        reveal_strlit("8");
        reveal_strlit("9");
    }
    let t: &str = if d == 0 {
        "0"
    } else if d == 1 {
        "1"
    } else if d == 2 {
        "2"
    } else if d == 3 {
        "3"
    } else if d == 4 {
        "4"
    } else if d == 5 {
        "5"
    } else if d == 6 {
        "6"
    } else if d == 7 {
        "7"
    } else if d == 8 {
        "8"
    } else {
        "9"
    };
    assert(t@ =~= seq![spec_digit_char(d as nat)]);
    s.append(t);
    assert(s@ =~= old(s)@.push(spec_digit_char(d as nat)));
}

/// Appends the decimal digits of a nonnegative integer.
fn push_unsigned_decimal(s: &mut String, n: u64)
    ensures
        final(s)@ == old(s)@ + spec_unsigned_decimal(n as nat),
    decreases n,
{
    if n < 10 {
        push_digit(s, n);
        assert(s@ =~= old(s)@ + spec_unsigned_decimal(n as nat));
    } else {
        push_unsigned_decimal(s, n / 10);
        push_digit(s, n % 10);
        assert(s@ =~= old(s)@ + spec_unsigned_decimal(n as nat));
    }
}

/// Renders an integer in decimal.
pub fn decimal_string_i32(n: i32) -> (r: String)
    ensures
        r@ == spec_decimal(n as int),
{
    let mut s = String::new();
    if n < 0 {
        s.append("-");
        proof {
            reveal_strlit("-");
            assert(s@ =~= seq!['-']);
        }
        let m: u64 = (-(n as i64)) as u64;
        push_unsigned_decimal(&mut s, m);
        assert(s@ =~= spec_decimal(n as int));
    } else {
        push_unsigned_decimal(&mut s, n as u64);
        assert(s@ =~= spec_decimal(n as int));
    }
    s
}

} // verus!
