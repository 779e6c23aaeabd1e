use crate::enums::failure::FailureReason;
use crate::values::datetime::UtcDateTime;
use crate::values::fixed::Fixed;
use vstd::prelude::*;

verus! {

/// What one exchange with a part brought back, before the part's driver has
/// looked at it.
#[derive(Clone, Copy, Debug, PartialEq, Eq, Structural)]
pub enum Sample {
    /// An illuminance in lux.
    Lux(Fixed),
    /// Temperature in °C, relative humidity in % and pressure in hPa.
    Atmosphere { temperature: Fixed, humidity: Fixed, pressure: Fixed },
    /// The calendar fields of a real-time clock.
    Clock(UtcDateTime),
    /// A range in millimetres.
    Range(u16),
    /// Components along three axes, and the tilt from the horizontal in
    /// degrees.
    Axes { x: Fixed, y: Fixed, z: Fixed, tilt: Fixed },
}

/// The outcome of one exchange: what came back, or why nothing did.
pub type Exchange = Result<Sample, FailureReason>;

} // verus!
