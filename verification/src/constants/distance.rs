use vstd::prelude::*;

verus! {

/// Names of the proximity classes, and the upper bound of each class in
/// millimetres (inclusive).
pub struct DistanceConstant;

impl DistanceConstant {
    pub const UNIT: &'static str = "meter";

    pub const TOO_CLOSE: &'static str = "TOO_CLOSE";

    pub const VERY_CLOSE: &'static str = "VERY_CLOSE";

    pub const CLOSE: &'static str = "CLOSE";

    pub const NEAR: &'static str = "NEAR";

    pub const MEDIUM: &'static str = "MEDIUM";

    pub const FAR: &'static str = "FAR";

    pub const OUT_OF_RANGE: &'static str = "OUT_OF_RANGE";

    pub const UNKNOWN: &'static str = "UNKNOWN";

    pub const TOO_CLOSE_MAX_MM: u16 = 10;

    pub const VERY_CLOSE_MAX_MM: u16 = 50;

    pub const CLOSE_MAX_MM: u16 = 200;

    pub const NEAR_MAX_MM: u16 = 500;

    pub const MEDIUM_MAX_MM: u16 = 1000;

    pub const FAR_MAX_MM: u16 = 2000;
}

} // verus!
