use crate::enums::proximity::ProximityClass;
use vstd::prelude::*;

verus! {

/// A range in millimetres with its proximity class. A range that could not
/// be measured is held as 65535 mm of class `Unknown`.
#[derive(Clone, Copy, Debug, PartialEq, Eq, Structural)]
pub struct VL53L0XSensorMeasurement {
    pub distance_mm: u16,
    pub status: ProximityClass,
}

impl VL53L0XSensorMeasurement {
    /// The reading that stands for a range that could not be measured.
    pub open spec fn unknown() -> VL53L0XSensorMeasurement {
        VL53L0XSensorMeasurement { distance_mm: u16::MAX, status: ProximityClass::Unknown }
    }

    /// The reading of a measured range.
    pub open spec fn of(distance_mm: u16) -> VL53L0XSensorMeasurement {
        VL53L0XSensorMeasurement { distance_mm, status: ProximityClass::of(distance_mm as int) }
    }

    /// The class is the one of the range's bin, or the range is unknown.
    pub open spec fn wf(self) -> bool {
        self == Self::of(self.distance_mm) || self == Self::unknown()
    }

    /// Whether the class is the one of the range's bin, or the range is unknown.
    pub fn is_wf(&self) -> (r: bool)
        ensures
            r == self.wf(),
    {
        self.status == ProximityClass::classify(self.distance_mm) || (self.distance_mm == u16::MAX
            && self.status == ProximityClass::Unknown)
    }
}

} // verus!
