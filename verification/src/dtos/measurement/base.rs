use crate::dtos::measurement::sensor::bh1750::BH1750SensorMeasurement;
use crate::dtos::measurement::sensor::bme280::BME280SensorMeasurement;
use crate::dtos::measurement::sensor::ds323x::DS323XSensorMeasurement;
use crate::dtos::measurement::sensor::lsm303dlhc::mag::LSM303DLHCMAGSensorMeasurement;
use crate::dtos::measurement::sensor::vl53l0x::VL53L0XSensorMeasurement;
use crate::enums::failure::FailureReason;
use vstd::prelude::*;

verus! {

/// A reading of one of the kinds that the parts produce.
#[derive(Clone, Copy, Debug, PartialEq, Eq, Structural)]
pub enum Measurement {
    Illuminance(BH1750SensorMeasurement),
    Atmosphere(BME280SensorMeasurement),
    Clock(DS323XSensorMeasurement),
    Range(VL53L0XSensorMeasurement),
    Acceleration(LSM303DLHCMAGSensorMeasurement),
}

impl Measurement {
    /// Each kind of reading keeps its own rule.
    pub open spec fn wf(self) -> bool {
        match self {
            Measurement::Illuminance(m) => m.wf(),
            Measurement::Atmosphere(_) => true,
            Measurement::Clock(m) => m.wf(),
            Measurement::Range(m) => m.wf(),
            Measurement::Acceleration(m) => m.wf(),
        }
    }
}

impl Measurement {
    /// Whether the rule of the kind is kept.
    pub fn is_wf(&self) -> (r: bool)
        ensures
            r == self.wf(),
    {
        match self {
            Measurement::Illuminance(m) => m.is_wf(),
            Measurement::Atmosphere(_) => true,
            Measurement::Clock(m) => m.is_wf(),
            Measurement::Range(m) => m.is_wf(),
            Measurement::Acceleration(m) => m.is_wf(),
        }
    }
}

/// What a report holds for one sensor: its measurement, or the reason why
/// there is none.
#[derive(Clone, Copy, Debug, PartialEq, Eq, Structural)]
pub enum ReadOutcome {
    Measurement(Measurement),
    Failure { reason: FailureReason },
}

impl ReadOutcome {
    /// A measurement keeps the rule of its kind; a failure has none to keep.
    pub open spec fn wf(self) -> bool {
        match self {
            ReadOutcome::Measurement(m) => m.wf(),
            ReadOutcome::Failure { .. } => true,
        }
    }

    /// The outcome that stands for the result of a read.
    pub open spec fn of(result: Result<Measurement, FailureReason>) -> ReadOutcome {
        match result {
            Ok(m) => ReadOutcome::Measurement(m),
            Err(reason) => ReadOutcome::Failure { reason },
        }
    }

    /// The outcome that stands for the result of a read.
    pub fn from_result(result: Result<Measurement, FailureReason>) -> (r: ReadOutcome)
        ensures
            r == ReadOutcome::of(result),
    {
        match result {
            Ok(m) => ReadOutcome::Measurement(m),
            Err(reason) => ReadOutcome::Failure { reason },
        }
    }

    /// Whether the rule of the kind is kept.
    pub fn is_wf(&self) -> (r: bool)
        ensures
            r == self.wf(),
    {
        match self {
            ReadOutcome::Measurement(m) => m.is_wf(),
            ReadOutcome::Failure { .. } => true,
        }
    }

    /// Whether the outcome is a failure.
    pub fn is_failure(&self) -> (r: bool)
        ensures
            r == (self is Failure),
    {
        match self {
            ReadOutcome::Measurement(_) => false,
            ReadOutcome::Failure { .. } => true,
        }
    }
}

/// The illuminance and the atmosphere of one report, where it has them.
#[derive(Clone, Copy, Debug, PartialEq, Eq, Structural)]
pub struct BaseMeasurementDTO {
    pub bh1750: Option<BH1750SensorMeasurement>,
    pub bme280: Option<BME280SensorMeasurement>,
}

} // verus!
