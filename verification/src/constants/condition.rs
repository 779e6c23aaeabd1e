use vstd::prelude::*;

verus! {

/// Names of the light conditions, and the upper bound of each condition in
/// thousandths of a lux (inclusive).
pub struct ConditionConstant;

impl ConditionConstant {
    pub const VERY_DARK: &'static str = "VERY_DARK";

    pub const DARK: &'static str = "DARK";

    pub const DIM: &'static str = "DIM";

    pub const NORMAL: &'static str = "NORMAL";

    pub const BRIGHT: &'static str = "BRIGHT";

    pub const VERY_BRIGHT: &'static str = "VERY_BRIGHT";

    pub const EXTREME: &'static str = "EXTREME";

    pub const VERY_DARK_MAX: i64 = 10_000;

    pub const DARK_MAX: i64 = 50_000;

    pub const DIM_MAX: i64 = 200_000;

    pub const NORMAL_MAX: i64 = 1_000_000;

    pub const BRIGHT_MAX: i64 = 5_000_000;

    pub const VERY_BRIGHT_MAX: i64 = 10_000_000;
}

} // verus!
