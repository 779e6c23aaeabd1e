use crate::values::text::push_char;
use vstd::prelude::*;

verus! {

/// The character that stands for a digit from 0 to 9.
pub open spec fn digit_char(d: int) -> char {
    (48 + d) as u8 as char
}

/// Whether a character is a decimal digit.
pub open spec fn is_digit(c: char) -> bool {
    '0' <= c <= '9'
}

/// The digit that a character from '0' to '9' stands for.
pub open spec fn digit_value(c: char) -> int {
    c as u8 - 48
}

/// A natural number in decimal, without leading zeros; zero is "0".
pub open spec fn decimal(n: nat) -> Seq<char>
    decreases n,
{
    if n < 10 {
        seq![digit_char(n as int)]
    } else {
        decimal(n / 10).push(digit_char((n % 10) as int))
    }
}

/// The last two decimal digits of a number.
pub open spec fn two_digits(n: nat) -> Seq<char> {
    seq![digit_char((n / 10 % 10) as int), digit_char((n % 10) as int)]
}

/// The last three decimal digits of a number.
pub open spec fn three_digits(n: nat) -> Seq<char> {
    seq![
        digit_char((n / 100 % 10) as int),
        digit_char((n / 10 % 10) as int),
        digit_char((n % 10) as int),
    ]
}

/// The last four decimal digits of a number.
pub open spec fn four_digits(n: nat) -> Seq<char> {
    seq![
        digit_char((n / 1000 % 10) as int),
        digit_char((n / 100 % 10) as int),
        digit_char((n / 10 % 10) as int),
        digit_char((n % 10) as int),
    ]
}

/// The character that stands for a digit.
pub fn to_digit_char(d: u8) -> (c: char)
    requires
        d < 10,
    ensures
        c == digit_char(d as int),
        is_digit(c),
        digit_value(c) == d,
{
    (48u8 + d) as char
}

/// The digit that `c` stands for, or `None` where `c` is no digit.
pub fn to_digit_value(c: char) -> (r: Option<u8>)
    ensures
        r is Some == is_digit(c),
        r matches Some(d) ==> d == digit_value(c) && d < 10 && digit_char(d as int) == c,
{
    if '0' <= c && c <= '9' {
        Some((c as u8) - 48)
    } else {
        None
    }
}

/// Appends `n` in decimal.
pub fn push_decimal(out: &mut String, n: u64)
    ensures
        final(out)@ == old(out)@ + decimal(n as nat),
    decreases n,
{
    if n >= 10 {
        push_decimal(out, n / 10);
    }
    push_char(out, to_digit_char((n % 10) as u8));
    proof {
        if n < 10 {
            assert(old(out)@.push(digit_char(n as int)) =~= old(out)@ + decimal(n as nat));
        } else {
            assert((old(out)@ + decimal((n / 10) as nat)).push(digit_char((n % 10) as int))
                =~= old(out)@ + decimal(n as nat));
        }
    }
}

/// Appends the last two decimal digits of `n`.
pub fn push_two_digits(out: &mut String, n: u64)
    ensures
        final(out)@ == old(out)@ + two_digits(n as nat),
{
    push_char(out, to_digit_char((n / 10 % 10) as u8));
    push_char(out, to_digit_char((n % 10) as u8));
    assert(final(out)@ =~= old(out)@ + two_digits(n as nat));
}

/// Appends the last three decimal digits of `n`.
pub fn push_three_digits(out: &mut String, n: u64)
    ensures
        final(out)@ == old(out)@ + three_digits(n as nat),
{
    push_char(out, to_digit_char((n / 100 % 10) as u8));
    push_char(out, to_digit_char((n / 10 % 10) as u8));
    push_char(out, to_digit_char((n % 10) as u8));
    assert(final(out)@ =~= old(out)@ + three_digits(n as nat));
}

/// Appends the last four decimal digits of `n`.
pub fn push_four_digits(out: &mut String, n: u64)
    ensures
        final(out)@ == old(out)@ + four_digits(n as nat),
{
    push_char(out, to_digit_char((n / 1000 % 10) as u8));
    push_char(out, to_digit_char((n / 100 % 10) as u8));
    push_char(out, to_digit_char((n / 10 % 10) as u8));
    push_char(out, to_digit_char((n % 10) as u8));
    assert(final(out)@ =~= old(out)@ + four_digits(n as nat));
}

} // verus!
