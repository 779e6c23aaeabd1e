use crate::values::digits::{
    decimal,
    digit_char,
    push_decimal,
    push_three_digits,
    push_two_digits,
    three_digits,
    to_digit_char,
    two_digits,
};
use crate::values::fixed::Fixed;
use crate::values::text::push_char;
use vstd::prelude::*;

verus! {

/// The digits of a fraction of less than 1000 thousandths, without zeros at
/// the end but with one digit at least: 400 is "4", 120 is "12", 5 is "005".
pub open spec fn fraction_text(thousandths: nat) -> Seq<char> {
    if thousandths % 100 == 0 {
        seq![digit_char((thousandths / 100 % 10) as int)]
    } else if thousandths % 10 == 0 {
        two_digits(thousandths / 10)
    } else {
        three_digits(thousandths)
    }
}

/// A reading as a JSON number: a minus sign where it is negative, the
/// whole part, a point, and the fraction.
pub open spec fn fixed_text(v: Fixed) -> Seq<char> {
    (if v.thousandths < 0 {
        seq!['-']
    } else {
        Seq::<char>::empty()
    }) + decimal(v.magnitude() / 1000) + seq!['.'] + fraction_text(v.magnitude() % 1000)
}

/// Appends the digits of a fraction of thousandths.
pub fn push_fraction(out: &mut String, thousandths: u16)
    requires
        thousandths < 1000,
    ensures
        final(out)@ == old(out)@ + fraction_text(thousandths as nat),
{
    if thousandths % 100 == 0 {
        push_char(out, to_digit_char((thousandths / 100 % 10) as u8));
        assert(final(out)@ =~= old(out)@ + fraction_text(thousandths as nat));
    } else if thousandths % 10 == 0 {
        push_two_digits(out, (thousandths / 10) as u64);
    } else {
        push_three_digits(out, thousandths as u64);
    }
}

/// Appends a reading as a JSON number.
pub fn push_fixed(out: &mut String, v: Fixed)
    ensures
        final(out)@ == old(out)@ + fixed_text(v),
{
    if v.is_negative() {
        push_char(out, '-');
    }
    push_decimal(out, v.whole());
    push_char(out, '.');
    push_fraction(out, v.fraction());
    assert(final(out)@ =~= old(out)@ + fixed_text(v));
}

} // verus!
