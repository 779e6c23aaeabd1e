use crate::abstractions::sensor::ISensor;
use crate::abstractions::utility::IUtility;
use crate::dtos::measurement::sample::{Exchange, Sample};
use crate::dtos::measurement::sensor::lsm303dlhc::mag::{
    magnitude,
    magnitude_of,
    LSM303DLHCMAGSensorMeasurement,
};
use crate::enums::error::SensingError;
use crate::enums::failure::FailureReason;
use crate::enums::kind::SensorKind;
use crate::identity::{check_driver, driver_fault};
use vstd::prelude::*;
use vstd::string::*;

verus! {

/// Driver of the LSM303DLHC, in the role of its accelerometer or of its
/// magnetometer.
pub struct LSM303DLHCSensor {
    pub urn: String,
    pub device_urn: String,
    pub location_urn: String,
    pub name: String,
}

/// What the driver makes of an exchange: the three components are reported
/// with their magnitude and the tilt that came with them. A vector too
/// long to be held is out of range, a sample of another kind is a protocol
/// error, and a failed exchange keeps its reason.
pub open spec fn axes_reading(exchange: Exchange) -> Result<
    LSM303DLHCMAGSensorMeasurement,
    FailureReason,
> {
    match exchange {
        Ok(Sample::Axes { x, y, z, tilt }) => match magnitude_of(x, y, z) {
            Some(magnitude) => Ok(LSM303DLHCMAGSensorMeasurement { x, y, z, magnitude, tilt }),
            None => Err(FailureReason::OutOfRange),
        },
        Ok(_) => Err(FailureReason::ProtocolError),
        Err(reason) => Err(reason),
    }
}

impl LSM303DLHCSensor {
    /// The names are not empty and the short name is that of the accelerometer
    /// or the magnetometer of the LSM303DLHC.
    pub open spec fn wf(&self) -> bool {
        driver_fault(set![SensorKind::Lsm303dlhAccel, SensorKind::Lsm303dlhMag], self.urn@, self.device_urn@, self.location_urn@, self.name@) is None
    }

    /// A driver with the given names. `name` must be the short name of the
    /// accelerometer or of the magnetometer of the LSM303DLHC.
    pub fn new(urn: String, device_urn: String, location_urn: String, name: String) -> (r: Result<
        Self,
        SensingError,
    >)
        ensures
            match r {
                Ok(s) => s.urn == urn && s.device_urn == device_urn && s.location_urn
                    == location_urn && s.name == name && s.wf(),
                Err(e) => Some(e) == driver_fault(set![SensorKind::Lsm303dlhAccel, SensorKind::Lsm303dlhMag], urn@, device_urn@, location_urn@, name@),
            },
    {
        match check_driver(urn.as_str(), device_urn.as_str(), location_urn.as_str(), name.as_str()) {
            Ok(SensorKind::Lsm303dlhAccel) => Ok(
                LSM303DLHCSensor { urn, device_urn, location_urn, name },
            ),
            Ok(SensorKind::Lsm303dlhMag) => Ok(
                LSM303DLHCSensor { urn, device_urn, location_urn, name },
            ),
            Ok(_) => Err(SensingError::WrongName),
            Err(e) => Err(e),
        }
    }

    /// What the driver makes of an exchange with the part.
    pub fn _read(&self, exchange: Exchange) -> (r: Result<
        LSM303DLHCMAGSensorMeasurement,
        FailureReason,
    >)
        ensures
            r == axes_reading(exchange),
            r matches Ok(m) ==> m.wf(),
    {
        match exchange {
            Ok(Sample::Axes { x, y, z, tilt }) => match magnitude(x, y, z) {
                Some(magnitude) => Ok(LSM303DLHCMAGSensorMeasurement { x, y, z, magnitude, tilt }),
                None => Err(FailureReason::OutOfRange),
            },
            Ok(_) => Err(FailureReason::ProtocolError),
            Err(reason) => Err(reason),
        }
    }
}

impl IUtility for LSM303DLHCSensor {
    open spec fn urn_text(&self) -> Seq<char> {
        self.urn@
    }

    open spec fn device_urn_text(&self) -> Seq<char> {
        self.device_urn@
    }

    open spec fn location_urn_text(&self) -> Seq<char> {
        self.location_urn@
    }

    fn urn(&self) -> (r: String) {
        self.urn.clone()
    }

    fn device_urn(&self) -> (r: String) {
        self.device_urn.clone()
    }

    fn location_urn(&self) -> (r: String) {
        self.location_urn.clone()
    }
}

impl ISensor<LSM303DLHCMAGSensorMeasurement> for LSM303DLHCSensor {
    open spec fn name_text(&self) -> Seq<char> {
        self.name@
    }

    open spec fn reading(&self, exchange: Exchange) -> Result<
        LSM303DLHCMAGSensorMeasurement,
        FailureReason,
    > {
        axes_reading(exchange)
    }

    fn name(&self) -> (r: String) {
        self.name.clone()
    }

    fn read(&self, exchange: Exchange) -> (r: Result<LSM303DLHCMAGSensorMeasurement, FailureReason>) {
        self._read(exchange)
    }
}

} // verus!
