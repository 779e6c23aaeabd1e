use vstd::prelude::*;

verus! {

/// A reading as a decimal number with three fractional digits, held as a
/// whole count of thousandths: 21.5 is held as 21 500.
#[derive(Clone, Copy, Debug, PartialEq, Eq, Structural)]
pub struct Fixed {
    pub thousandths: i64,
}

impl Fixed {
    /// The number of thousandths that make up the value, without sign.
    pub open spec fn magnitude(self) -> nat {
        if self.thousandths < 0 {
            (-(self.thousandths as int)) as nat
        } else {
            self.thousandths as nat
        }
    }

    /// The value of so many thousandths.
    pub fn from_thousandths(thousandths: i64) -> (r: Fixed)
        ensures
            r.thousandths == thousandths,
    {
        Fixed { thousandths }
    }

    /// The value with the given sign, whole part and fractional part, where
    /// it can be held: the fraction must be below 1000 and the whole value
    /// within the range of `i64` thousandths.
    pub fn from_parts(negative: bool, whole: u64, fraction: u16) -> (r: Option<Fixed>)
        ensures
            r is Some <==> fraction < 1000 && (if negative {
                whole * 1000 + fraction <= i64::MAX + 1
            } else {
                whole * 1000 + fraction <= i64::MAX
            }),
            r matches Some(v) ==> v.thousandths == (if negative {
                -(whole * 1000 + fraction)
            } else {
                whole * 1000 + fraction
            }),
    {
        if fraction >= 1000 {
            return None;
        }
        let total: u128 = (whole as u128) * 1000 + (fraction as u128);
        if negative {
            if total > (i64::MAX as u128) + 1 {
                None
            } else if total == (i64::MAX as u128) + 1 {
                Some(Fixed { thousandths: i64::MIN })
            } else {
                Some(Fixed { thousandths: -(total as i64) })
            }
        } else {
            if total > i64::MAX as u128 {
                None
            } else {
                Some(Fixed { thousandths: total as i64 })
            }
        }
    }

    /// Whether the value is below zero.
    pub fn is_negative(&self) -> (r: bool)
        ensures
            r == (self.thousandths < 0),
    {
        self.thousandths < 0
    }

    /// The number of thousandths that make up the value, without sign.
    pub fn abs(&self) -> (r: u64)
        ensures
            r == self.magnitude(),
    {
        if self.thousandths >= 0 {
            self.thousandths as u64
        } else if self.thousandths == i64::MIN {
            9_223_372_036_854_775_808u64
        } else {
            (-self.thousandths) as u64
        }
    }

    /// The whole part of the value, without sign.
    pub fn whole(&self) -> (r: u64)
        ensures
            r == self.magnitude() / 1000,
    {
        self.abs() / 1000
    }

    /// The thousandths beyond the whole part, without sign.
    pub fn fraction(&self) -> (r: u16)
        ensures
            r == self.magnitude() % 1000,
    {
        (self.abs() % 1000) as u16
    }
}

} // verus!
