use crate::values::fixed::Fixed;
use vstd::prelude::*;

verus! {

/// Temperature in °C, relative humidity in % and pressure in hPa, taken
/// together.
#[derive(Clone, Copy, Debug, PartialEq, Eq, Structural)]
pub struct BME280SensorMeasurement {
    pub temperature: Fixed,
    pub humidity: Fixed,
    pub pressure: Fixed,
}

} // verus!
