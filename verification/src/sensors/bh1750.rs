use crate::abstractions::sensor::ISensor;
use crate::abstractions::utility::IUtility;
use crate::dtos::measurement::sample::{Exchange, Sample};
use crate::dtos::measurement::sensor::bh1750::BH1750SensorMeasurement;
use crate::enums::condition::LightCondition;
use crate::enums::error::SensingError;
use crate::enums::failure::FailureReason;
use crate::enums::kind::SensorKind;
use crate::identity::{check_driver, driver_fault};
use crate::values::fixed::Fixed;
use vstd::prelude::*;
use vstd::string::*;

verus! {

/// Driver of the BH1750 ambient light sensor.
pub struct BH1750Sensor {
    pub urn: String,
    pub device_urn: String,
    pub location_urn: String,
    pub name: String,
}

/// The condition of an illuminance.
pub fn get_light_condition(lux: Fixed) -> (r: LightCondition)
    ensures
        r == LightCondition::of(lux.thousandths as int),
{
    LightCondition::classify(lux)
}

/// What the driver makes of an exchange: an illuminance that is not
/// negative is reported with its condition, a negative one is out of range,
/// a sample of another kind is a protocol error, and a failed exchange
/// keeps its reason.
pub open spec fn light_reading(exchange: Exchange) -> Result<BH1750SensorMeasurement, FailureReason> {
    match exchange {
        Ok(Sample::Lux(lux)) => if lux.thousandths < 0 {
            Err(FailureReason::OutOfRange)
        } else {
            Ok(
                BH1750SensorMeasurement {
                    lux,
                    condition: LightCondition::of(lux.thousandths as int),
                },
            )
        },
        Ok(_) => Err(FailureReason::ProtocolError),
        Err(reason) => Err(reason),
    }
}

impl BH1750Sensor {
    /// The names are not empty and the short name is that of the BH1750.
    pub open spec fn wf(&self) -> bool {
        driver_fault(
            set![SensorKind::Bh1750],
            self.urn@,
            self.device_urn@,
            self.location_urn@,
            self.name@,
        ) is None
    }

    /// A driver with the given names. `name` must be the short name of the BH1750.
    pub fn new(urn: String, device_urn: String, location_urn: String, name: String) -> (r: Result<
        Self,
        SensingError,
    >)
        ensures
            match r {
                Ok(s) => s.urn == urn && s.device_urn == device_urn && s.location_urn
                    == location_urn && s.name == name && s.wf(),
                Err(e) => Some(e) == driver_fault(
                    set![SensorKind::Bh1750],
                    urn@,
                    device_urn@,
                    location_urn@,
                    name@,
                ),
            },
    {
        match check_driver(urn.as_str(), device_urn.as_str(), location_urn.as_str(), name.as_str()) {
            Ok(SensorKind::Bh1750) => Ok(BH1750Sensor { urn, device_urn, location_urn, name }),
            Ok(_) => Err(SensingError::WrongName),
            Err(e) => Err(e),
        }
    }

    /// What the driver makes of an exchange with the part.
    pub fn _read(&self, exchange: Exchange) -> (r: Result<BH1750SensorMeasurement, FailureReason>)
        ensures
            r == light_reading(exchange),
            r matches Ok(m) ==> m.wf(),
    {
        match exchange {
            Ok(Sample::Lux(lux)) => {
                if lux.is_negative() {
                    Err(FailureReason::OutOfRange)
                } else {
                    Ok(BH1750SensorMeasurement { lux, condition: get_light_condition(lux) })
                }
            },
            Ok(_) => Err(FailureReason::ProtocolError),
            Err(reason) => Err(reason),
        }
    }
}

impl IUtility for BH1750Sensor {
    open spec fn urn_text(&self) -> Seq<char> {
        self.urn@
    }

    open spec fn device_urn_text(&self) -> Seq<char> {
        self.device_urn@
    }

    open spec fn location_urn_text(&self) -> Seq<char> {
        self.location_urn@
    }

    fn urn(&self) -> (r: String) {
        self.urn.clone()
    }

    fn device_urn(&self) -> (r: String) {
        self.device_urn.clone()
    }

    fn location_urn(&self) -> (r: String) {
        self.location_urn.clone()
    }
}

impl ISensor<BH1750SensorMeasurement> for BH1750Sensor {
    open spec fn name_text(&self) -> Seq<char> {
        self.name@
    }

    open spec fn reading(&self, exchange: Exchange) -> Result<
        BH1750SensorMeasurement,
        FailureReason,
    > {
        light_reading(exchange)
    }

    fn name(&self) -> (r: String) {
        self.name.clone()
    }

    fn read(&self, exchange: Exchange) -> (r: Result<BH1750SensorMeasurement, FailureReason>) {
        self._read(exchange)
    }
}

} // verus!
