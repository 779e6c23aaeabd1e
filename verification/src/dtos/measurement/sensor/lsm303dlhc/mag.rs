use crate::values::fixed::Fixed;
use crate::values::root::{floor_root, is_floor_root, lemma_root_unique, root};
use vstd::prelude::*;

verus! {

/// A reading along three axes with its magnitude, and the tilt from the
/// horizontal in degrees.
#[derive(Clone, Copy, Debug, PartialEq, Eq, Structural)]
pub struct LSM303DLHCMAGSensorMeasurement {
    pub x: Fixed,
    pub y: Fixed,
    pub z: Fixed,
    pub magnitude: Fixed,
    pub tilt: Fixed,
}

/// The sum of the squares of three components, in millionths.
pub open spec fn square_sum(x: Fixed, y: Fixed, z: Fixed) -> nat {
    (x.thousandths * x.thousandths + y.thousandths * y.thousandths + z.thousandths
        * z.thousandths) as nat
}

/// The length of a vector in thousandths, rounded down, where it can be
/// held.
pub open spec fn magnitude_of(x: Fixed, y: Fixed, z: Fixed) -> Option<Fixed> {
    if root(square_sum(x, y, z)) <= i64::MAX {
        Some(Fixed { thousandths: root(square_sum(x, y, z)) as i64 })
    } else {
        None
    }
}

/// The length of the vector (x, y, z).
pub fn magnitude(x: Fixed, y: Fixed, z: Fixed) -> (r: Option<Fixed>)
    ensures
        r == magnitude_of(x, y, z),
        r matches Some(m) ==> m.thousandths >= 0 && is_floor_root(
            square_sum(x, y, z),
            m.thousandths as nat,
        ),
{
    let a: u128 = x.abs() as u128;
    let b: u128 = y.abs() as u128;
    let c: u128 = z.abs() as u128;
    assert(a * a <= 0x8000_0000_0000_0000 * 0x8000_0000_0000_0000) by (nonlinear_arith)
        requires
            0 <= a <= 0x8000_0000_0000_0000,
    ;
    assert(b * b <= 0x8000_0000_0000_0000 * 0x8000_0000_0000_0000) by (nonlinear_arith)
        requires
            0 <= b <= 0x8000_0000_0000_0000,
    ;
    assert(c * c <= 0x8000_0000_0000_0000 * 0x8000_0000_0000_0000) by (nonlinear_arith)
        requires
            0 <= c <= 0x8000_0000_0000_0000,
    ;
    assert(3 * (0x8000_0000_0000_0000int * 0x8000_0000_0000_0000int) <= u128::MAX);
    assert(a * a == x.thousandths * x.thousandths) by (nonlinear_arith)
        requires
            a == x.thousandths || a == -x.thousandths,
    ;
    assert(b * b == y.thousandths * y.thousandths) by (nonlinear_arith)
        requires
            b == y.thousandths || b == -y.thousandths,
    ;
    assert(c * c == z.thousandths * z.thousandths) by (nonlinear_arith)
        requires
            c == z.thousandths || c == -z.thousandths,
    ;
    let sum: u128 = a * a + b * b + c * c;
    let length = floor_root(sum);
    if length <= i64::MAX as u64 {
        Some(Fixed { thousandths: length as i64 })
    } else {
        None
    }
}

impl LSM303DLHCMAGSensorMeasurement {
    /// The magnitude is the square root of x² + y² + z², rounded down to the
    /// thousandth.
    pub open spec fn wf(self) -> bool {
        &&& self.magnitude.thousandths >= 0
        &&& is_floor_root(square_sum(self.x, self.y, self.z), self.magnitude.thousandths as nat)
    }

    /// Whether the magnitude is the length of the vector.
    pub fn is_wf(&self) -> (r: bool)
        ensures
            r == self.wf(),
    {
        proof {
            if self.wf() {
                lemma_root_unique(
                    square_sum(self.x, self.y, self.z),
                    self.magnitude.thousandths as nat,
                );
            }
        }
        match magnitude(self.x, self.y, self.z) {
            Some(length) => length.thousandths == self.magnitude.thousandths,
            None => false,
        }
    }
}

} // verus!
