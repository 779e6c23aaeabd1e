use crate::abstractions::sensor::ISensor;
use crate::abstractions::utility::IUtility;
use crate::dtos::measurement::sample::{Exchange, Sample};
use crate::dtos::measurement::sensor::bme280::BME280SensorMeasurement;
use crate::enums::error::SensingError;
use crate::enums::failure::FailureReason;
use crate::enums::kind::SensorKind;
use crate::identity::{check_driver, driver_fault};
use vstd::prelude::*;
use vstd::string::*;

verus! {

/// Driver of the BME280 temperature, humidity and pressure sensor, and of
/// its sibling, the BME680.
pub struct BME280Sensor {
    pub urn: String,
    pub device_urn: String,
    pub location_urn: String,
    pub name: String,
}

/// What the driver makes of an exchange: the three values are reported as
/// they came, and never replaced by zeros. A failure of the part, whatever
/// its reason, is reported as a part that does not respond; a busy bus and
/// a passed deadline keep their reason. A sample of another kind is a
/// protocol error.
pub open spec fn atmosphere_reading(exchange: Exchange) -> Result<
    BME280SensorMeasurement,
    FailureReason,
> {
    match exchange {
        Ok(Sample::Atmosphere { temperature, humidity, pressure }) => Ok(
            BME280SensorMeasurement { temperature, humidity, pressure },
        ),
        Ok(_) => Err(FailureReason::ProtocolError),
        Err(reason) => if reason.of_part() {
            Err(FailureReason::DeviceNotResponding)
        } else {
            Err(reason)
        },
    }
}

impl BME280Sensor {
    /// The names are not empty and the short name is that of the BME280 or the
    /// BME680.
    pub open spec fn wf(&self) -> bool {
        driver_fault(set![SensorKind::Bme280, SensorKind::Bme680], self.urn@, self.device_urn@, self.location_urn@, self.name@) is None
    }

    /// A driver with the given names. `name` must be the short name of the
    /// BME280 or of the BME680.
    pub fn new(urn: String, device_urn: String, location_urn: String, name: String) -> (r: Result<
        Self,
        SensingError,
    >)
        ensures
            match r {
                Ok(s) => s.urn == urn && s.device_urn == device_urn && s.location_urn
                    == location_urn && s.name == name && s.wf(),
                Err(e) => Some(e) == driver_fault(set![SensorKind::Bme280, SensorKind::Bme680], urn@, device_urn@, location_urn@, name@),
            },
    {
        match check_driver(urn.as_str(), device_urn.as_str(), location_urn.as_str(), name.as_str()) {
            Ok(SensorKind::Bme280) => Ok(BME280Sensor { urn, device_urn, location_urn, name }),
            Ok(SensorKind::Bme680) => Ok(BME280Sensor { urn, device_urn, location_urn, name }),
            Ok(_) => Err(SensingError::WrongName),
            Err(e) => Err(e),
        }
    }

    /// What the driver makes of an exchange with the part.
    pub fn _read(&self, exchange: Exchange) -> (r: Result<BME280SensorMeasurement, FailureReason>)
        ensures
            r == atmosphere_reading(exchange),
    {
        match exchange {
            Ok(Sample::Atmosphere { temperature, humidity, pressure }) => Ok(
                BME280SensorMeasurement { temperature, humidity, pressure },
            ),
            Ok(_) => Err(FailureReason::ProtocolError),
            Err(reason) => {
                if reason.is_of_part() {
                    Err(FailureReason::DeviceNotResponding)
                } else {
                    Err(reason)
                }
            },
        }
    }
}

impl IUtility for BME280Sensor {
    open spec fn urn_text(&self) -> Seq<char> {
        self.urn@
    }

    open spec fn device_urn_text(&self) -> Seq<char> {
        self.device_urn@
    }

    open spec fn location_urn_text(&self) -> Seq<char> {
        self.location_urn@
    }

    fn urn(&self) -> (r: String) {
        self.urn.clone()
    }

    fn device_urn(&self) -> (r: String) {
        self.device_urn.clone()
    }

    fn location_urn(&self) -> (r: String) {
        self.location_urn.clone()
    }
}

impl ISensor<BME280SensorMeasurement> for BME280Sensor {
    open spec fn name_text(&self) -> Seq<char> {
        self.name@
    }

    open spec fn reading(&self, exchange: Exchange) -> Result<
        BME280SensorMeasurement,
        FailureReason,
    > {
        atmosphere_reading(exchange)
    }

    fn name(&self) -> (r: String) {
        self.name.clone()
    }

    fn read(&self, exchange: Exchange) -> (r: Result<BME280SensorMeasurement, FailureReason>) {
        self._read(exchange)
    }
}

} // verus!
