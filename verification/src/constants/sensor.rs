use vstd::prelude::*;

verus! {

/// Short names of the parts in the catalog.
pub struct SensorConstant;

impl SensorConstant {
    pub const BH1750: &'static str = "bh1750";

    pub const BME280: &'static str = "bme280";

    pub const BME680: &'static str = "bme680";

    pub const DS3231SN: &'static str = "ds3231sn";

    pub const LSM303DLHACCEL: &'static str = "lsm303dlhaccel";

    pub const LSM303DLHMAG: &'static str = "lsm303dlhmag";

    pub const VL5310X: &'static str = "vl53l0x";
}

} // verus!
