use vstd::prelude::*;

verus! {

/// Units of the readings. The core carries them and never converts.
pub struct UnitConstant;

impl UnitConstant {
    pub const TEMPERATURE: &'static str = "°C";

    pub const HUMIDITY: &'static str = "%";

    pub const PRESSURE: &'static str = "hPa";

    pub const LUMINOSITY: &'static str = "lux";

    pub const DISTANCE: &'static str = "mm";

    pub const ACCELERATION: &'static str = "m/s²";

    pub const MAGNETIC_FIELD: &'static str = "µT";
}

} // verus!
