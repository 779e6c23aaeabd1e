use crate::abstractions::sensor::ISensor;
use crate::abstractions::utility::IUtility;
use crate::dtos::measurement::sample::{Exchange, Sample};
use crate::dtos::measurement::sensor::vl53l0x::VL53L0XSensorMeasurement;
use crate::enums::error::SensingError;
use crate::enums::failure::FailureReason;
use crate::enums::kind::SensorKind;
use crate::enums::proximity::ProximityClass;
use crate::identity::{check_driver, driver_fault};
use vstd::prelude::*;
use vstd::string::*;

verus! {

/// Driver of the VL53L0X time-of-flight ranging sensor.
pub struct VL53L0XSensor {
    pub urn: String,
    pub device_urn: String,
    pub location_urn: String,
    pub name: String,
}

/// What the driver makes of an exchange: a range is reported with its
/// class. Where the part failed, the range is reported as 65535 mm of
/// class `Unknown`; a busy bus and a passed deadline keep their reason. A
/// sample of another kind is a protocol error.
pub open spec fn range_reading(exchange: Exchange) -> Result<
    VL53L0XSensorMeasurement,
    FailureReason,
> {
    match exchange {
        Ok(Sample::Range(distance_mm)) => Ok(VL53L0XSensorMeasurement::of(distance_mm)),
        Ok(_) => Err(FailureReason::ProtocolError),
        Err(reason) => if reason.of_part() {
            Ok(VL53L0XSensorMeasurement::unknown())
        } else {
            Err(reason)
        },
    }
}

impl VL53L0XSensor {
    /// The names are not empty and the short name is that of the VL53L0X.
    pub open spec fn wf(&self) -> bool {
        driver_fault(set![SensorKind::Vl53l0x], self.urn@, self.device_urn@, self.location_urn@, self.name@) is None
    }

    /// A driver with the given names. `name` must be the short name of the VL53L0X.
    pub fn new(urn: String, device_urn: String, location_urn: String, name: String) -> (r: Result<
        Self,
        SensingError,
    >)
        ensures
            match r {
                Ok(s) => s.urn == urn && s.device_urn == device_urn && s.location_urn
                    == location_urn && s.name == name && s.wf(),
                Err(e) => Some(e) == driver_fault(set![SensorKind::Vl53l0x], urn@, device_urn@, location_urn@, name@),
            },
    {
        match check_driver(urn.as_str(), device_urn.as_str(), location_urn.as_str(), name.as_str()) {
            Ok(SensorKind::Vl53l0x) => Ok(VL53L0XSensor { urn, device_urn, location_urn, name }),
            Ok(_) => Err(SensingError::WrongName),
            Err(e) => Err(e),
        }
    }

    /// The proximity class of a range in millimetres.
    pub fn get_distance_status(&self, distance_mm: u16) -> (r: ProximityClass)
        ensures
            r == ProximityClass::of(distance_mm as int),
    {
        ProximityClass::classify(distance_mm)
    }

    /// What the driver makes of an exchange with the part.
    pub fn _read(&self, exchange: Exchange) -> (r: Result<VL53L0XSensorMeasurement, FailureReason>)
        ensures
            r == range_reading(exchange),
            r matches Ok(m) ==> m.wf(),
    {
        match exchange {
            Ok(Sample::Range(distance_mm)) => Ok(
                VL53L0XSensorMeasurement {
                    distance_mm,
                    status: self.get_distance_status(distance_mm),
                },
            ),
            Ok(_) => Err(FailureReason::ProtocolError),
            Err(reason) => {
                if reason.is_of_part() {
                    Ok(
                        VL53L0XSensorMeasurement {
                            distance_mm: u16::MAX,
                            status: ProximityClass::Unknown,
                        },
                    )
                } else {
                    Err(reason)
                }
            },
        }
    }
}

impl IUtility for VL53L0XSensor {
    open spec fn urn_text(&self) -> Seq<char> {
        self.urn@
    }

    open spec fn device_urn_text(&self) -> Seq<char> {
        self.device_urn@
    }

    open spec fn location_urn_text(&self) -> Seq<char> {
        self.location_urn@
    }

    fn urn(&self) -> (r: String) {
        self.urn.clone()
    }

    fn device_urn(&self) -> (r: String) {
        self.device_urn.clone()
    }

    fn location_urn(&self) -> (r: String) {
        self.location_urn.clone()
    }
}

impl ISensor<VL53L0XSensorMeasurement> for VL53L0XSensor {
    open spec fn name_text(&self) -> Seq<char> {
        self.name@
    }

    open spec fn reading(&self, exchange: Exchange) -> Result<
        VL53L0XSensorMeasurement,
        FailureReason,
    > {
        range_reading(exchange)
    }

    fn name(&self) -> (r: String) {
        self.name.clone()
    }

    fn read(&self, exchange: Exchange) -> (r: Result<VL53L0XSensorMeasurement, FailureReason>) {
        self._read(exchange)
    }
}

} // verus!
