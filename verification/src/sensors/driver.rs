use crate::abstractions::sensor::ISensor;
use crate::abstractions::utility::IUtility;
use crate::bus::{within_limit, BusArbiter, Timed};
use crate::dtos::measurement::base::Measurement;
use crate::dtos::measurement::sample::Exchange;
use crate::enums::error::SensingError;
use crate::enums::failure::FailureReason;
use crate::enums::kind::SensorKind;
use crate::sensors::bh1750::{light_reading, BH1750Sensor};
use crate::sensors::bme280::{atmosphere_reading, BME280Sensor};
use crate::sensors::ds323x::{clock_reading, DS323XSensor};
use crate::identity::{derive_urn, derived_urn};
use crate::sensors::lsm303dlhc::accel::{axes_reading, LSM303DLHCSensor};
use crate::sensors::vl53l0x::{range_reading, VL53L0XSensor};
use vstd::prelude::*;
use vstd::string::*;

verus! {

/// A driver of any of the parts in the catalog.
pub enum SensorDriver {
    Illuminance(BH1750Sensor),
    Atmosphere(BME280Sensor),
    Clock(DS323XSensor),
    Range(VL53L0XSensor),
    Motion(LSM303DLHCSensor),
}

/// What the driver of a part makes of an exchange with it.
pub open spec fn reading_of(kind: SensorKind, exchange: Exchange) -> Result<
    Measurement,
    FailureReason,
> {
    match kind {
        SensorKind::Bh1750 => match light_reading(exchange) {
            Ok(m) => Ok(Measurement::Illuminance(m)),
            Err(e) => Err(e),
        },
        SensorKind::Bme280 | SensorKind::Bme680 => match atmosphere_reading(exchange) {
            Ok(m) => Ok(Measurement::Atmosphere(m)),
            Err(e) => Err(e),
        },
        SensorKind::Ds3231sn => match clock_reading(exchange) {
            Ok(m) => Ok(Measurement::Clock(m)),
            Err(e) => Err(e),
        },
        SensorKind::Vl53l0x => match range_reading(exchange) {
            Ok(m) => Ok(Measurement::Range(m)),
            Err(e) => Err(e),
        },
        SensorKind::Lsm303dlhAccel | SensorKind::Lsm303dlhMag => match axes_reading(exchange) {
            Ok(m) => Ok(Measurement::Acceleration(m)),
            Err(e) => Err(e),
        },
    }
}

/// What an exchange under the bus is worth to a driver: what it brought
/// where it kept the bus's limit of `limit_ms` milliseconds, and a busy bus
/// where it did not.
pub open spec fn exchange_under(t: Timed<Exchange>, limit_ms: u64) -> Exchange {
    match within_limit(t, limit_ms) {
        Ok(exchange) => exchange,
        Err(busy) => Err(busy),
    }
}

impl SensorDriver {
    /// The part that the driver drives: the one whose short name it bears.
    pub open spec fn kind(&self) -> SensorKind {
        SensorKind::named(self.name_text())->0
    }

    /// The names of the driver are not empty and its name is the short name of a
    /// part that it drives.
    pub open spec fn wf(&self) -> bool {
        match self {
            SensorDriver::Illuminance(d) => d.wf(),
            SensorDriver::Atmosphere(d) => d.wf(),
            SensorDriver::Clock(d) => d.wf(),
            SensorDriver::Range(d) => d.wf(),
            SensorDriver::Motion(d) => d.wf(),
        }
    }

    /// The driver of `kind` that belongs to the registry named `base`: its
    /// own name is `base`, a colon and the short name of the part.
    pub fn build(kind: SensorKind, base: &str, device_urn: &str, location_urn: &str) -> (r: Result<
        SensorDriver,
        SensingError,
    >)
        ensures
            match r {
                Ok(d) => d.wf() && d.kind() == kind && d.name_text() == kind.short_name()
                    && d.urn_text() == derived_urn(base@, kind.short_name())
                    && d.device_urn_text() == device_urn@ && d.location_urn_text()
                    == location_urn@,
                Err(e) => e == SensingError::EmptyUrn,
            },
            r is Err <==> device_urn@.len() == 0 || location_urn@.len() == 0,
    {
        proof {
            kind.lemma_lookup_own_names();
        }
        let urn = derive_urn(base, kind.name());
        let device = String::from_str(device_urn);
        let location = String::from_str(location_urn);
        let name = String::from_str(kind.name());
        match kind {
            SensorKind::Bh1750 => match BH1750Sensor::new(urn, device, location, name) {
                Ok(d) => Ok(SensorDriver::Illuminance(d)),
                Err(e) => Err(e),
            },
            SensorKind::Bme280 | SensorKind::Bme680 => match BME280Sensor::new(
                urn,
                device,
                location,
                name,
            ) {
                Ok(d) => Ok(SensorDriver::Atmosphere(d)),
                Err(e) => Err(e),
            },
            SensorKind::Ds3231sn => match DS323XSensor::new(urn, device, location, name) {
                Ok(d) => Ok(SensorDriver::Clock(d)),
                Err(e) => Err(e),
            },
            SensorKind::Vl53l0x => match VL53L0XSensor::new(urn, device, location, name) {
                Ok(d) => Ok(SensorDriver::Range(d)),
                Err(e) => Err(e),
            },
            SensorKind::Lsm303dlhAccel | SensorKind::Lsm303dlhMag => match LSM303DLHCSensor::new(
                urn,
                device,
                location,
                name,
            ) {
                Ok(d) => Ok(SensorDriver::Motion(d)),
                Err(e) => Err(e),
            },
        }
    }

    /// Reads the part: one exchange, `op`, under the bus, and what the
    /// driver makes of it. An exchange that held the bus for longer than
    /// its limit allows counts as a busy bus, as does a bus that is held
    /// already, in which case there is no exchange. The bus is left as it
    /// was found. The time that the exchange took is handed on.
    pub fn read_under<F: FnOnce() -> Timed<Exchange>>(
        &self,
        bus: &mut BusArbiter,
        caller: u64,
        op: F,
    ) -> (r: Timed<Result<Measurement, FailureReason>>)
        requires
            old(bus).wf(),
            call_requires(op, ()),
        ensures
            final(bus).wf(),
            final(bus).limit_ms == old(bus).limit_ms,
            final(bus).holder == old(bus).holder,
            final(bus).since_ms == old(bus).since_ms,
            final(bus).waiters@ == old(bus).waiters@,
            old(bus).holder is Some ==> r.elapsed_ms == 0 && r.value == self.reading(
                Err(FailureReason::BusBusy),
            ),
            old(bus).holder is None ==> exists|t: Timed<Exchange>|
                call_ensures(op, (), t) && r.elapsed_ms == t.elapsed_ms && r.value == self.reading(
                    exchange_under(t, old(bus).limit_ms),
                ),
            r.value matches Ok(m) ==> m.wf(),
    {
        let held = bus.with_bus(caller, op);
        let exchange = match held.value {
            Ok(exchange) => exchange,
            Err(busy) => Err(busy),
        };
        let r = Timed { value: self.read(exchange), elapsed_ms: held.elapsed_ms };
        proof {
            if old(bus).holder is None {
                let seen = choose|t: Timed<Exchange>|
                    call_ensures(op, (), t) && held.elapsed_ms == t.elapsed_ms && held.value
                        == within_limit(t, old(bus).limit_ms);
                assert(call_ensures(op, (), seen) && r.elapsed_ms == seen.elapsed_ms && r.value
                    == self.reading(exchange_under(seen, old(bus).limit_ms)));
            }
        }
        r
    }

    /// The part that the driver drives.
    pub fn sensor_kind(&self) -> (r: SensorKind)
        requires
            self.wf(),
        ensures
            r == self.kind(),
    {
        let name = match self {
            SensorDriver::Illuminance(d) => d.name.as_str(),
            SensorDriver::Atmosphere(d) => d.name.as_str(),
            SensorDriver::Clock(d) => d.name.as_str(),
            SensorDriver::Range(d) => d.name.as_str(),
            SensorDriver::Motion(d) => d.name.as_str(),
        };
        match SensorKind::from_short_name(name) {
            Some(kind) => kind,
            None => SensorKind::Bh1750,
        }
    }
}

impl IUtility for SensorDriver {
    open spec fn urn_text(&self) -> Seq<char> {
        match self {
            SensorDriver::Illuminance(d) => d.urn@,
            SensorDriver::Atmosphere(d) => d.urn@,
            SensorDriver::Clock(d) => d.urn@,
            SensorDriver::Range(d) => d.urn@,
            SensorDriver::Motion(d) => d.urn@,
        }
    }

    open spec fn device_urn_text(&self) -> Seq<char> {
        match self {
            SensorDriver::Illuminance(d) => d.device_urn@,
            SensorDriver::Atmosphere(d) => d.device_urn@,
            SensorDriver::Clock(d) => d.device_urn@,
            SensorDriver::Range(d) => d.device_urn@,
            SensorDriver::Motion(d) => d.device_urn@,
        }
    }

    open spec fn location_urn_text(&self) -> Seq<char> {
        match self {
            SensorDriver::Illuminance(d) => d.location_urn@,
            SensorDriver::Atmosphere(d) => d.location_urn@,
            SensorDriver::Clock(d) => d.location_urn@,
            SensorDriver::Range(d) => d.location_urn@,
            SensorDriver::Motion(d) => d.location_urn@,
        }
    }

    fn urn(&self) -> (r: String) {
        match self {
            SensorDriver::Illuminance(d) => d.urn.clone(),
            SensorDriver::Atmosphere(d) => d.urn.clone(),
            SensorDriver::Clock(d) => d.urn.clone(),
            SensorDriver::Range(d) => d.urn.clone(),
            SensorDriver::Motion(d) => d.urn.clone(),
        }
    }

    fn device_urn(&self) -> (r: String) {
        match self {
            SensorDriver::Illuminance(d) => d.device_urn.clone(),
            SensorDriver::Atmosphere(d) => d.device_urn.clone(),
            SensorDriver::Clock(d) => d.device_urn.clone(),
            SensorDriver::Range(d) => d.device_urn.clone(),
            SensorDriver::Motion(d) => d.device_urn.clone(),
        }
    }

    fn location_urn(&self) -> (r: String) {
        match self {
            SensorDriver::Illuminance(d) => d.location_urn.clone(),
            SensorDriver::Atmosphere(d) => d.location_urn.clone(),
            SensorDriver::Clock(d) => d.location_urn.clone(),
            SensorDriver::Range(d) => d.location_urn.clone(),
            SensorDriver::Motion(d) => d.location_urn.clone(),
        }
    }
}

impl ISensor<Measurement> for SensorDriver {
    open spec fn name_text(&self) -> Seq<char> {
        match self {
            SensorDriver::Illuminance(d) => d.name@,
            SensorDriver::Atmosphere(d) => d.name@,
            SensorDriver::Clock(d) => d.name@,
            SensorDriver::Range(d) => d.name@,
            SensorDriver::Motion(d) => d.name@,
        }
    }

    open spec fn reading(&self, exchange: Exchange) -> Result<Measurement, FailureReason> {
        match self {
            SensorDriver::Illuminance(_) => reading_of(SensorKind::Bh1750, exchange),
            SensorDriver::Atmosphere(_) => reading_of(SensorKind::Bme280, exchange),
            SensorDriver::Clock(_) => reading_of(SensorKind::Ds3231sn, exchange),
            SensorDriver::Range(_) => reading_of(SensorKind::Vl53l0x, exchange),
            SensorDriver::Motion(_) => reading_of(SensorKind::Lsm303dlhAccel, exchange),
        }
    }

    fn name(&self) -> (r: String) {
        match self {
            SensorDriver::Illuminance(d) => d.name.clone(),
            SensorDriver::Atmosphere(d) => d.name.clone(),
            SensorDriver::Clock(d) => d.name.clone(),
            SensorDriver::Range(d) => d.name.clone(),
            SensorDriver::Motion(d) => d.name.clone(),
        }
    }

    fn read(&self, exchange: Exchange) -> (r: Result<Measurement, FailureReason>)
        ensures
            r matches Ok(m) ==> m.wf(),
    {
        match self {
            SensorDriver::Illuminance(d) => match d._read(exchange) {
                Ok(m) => Ok(Measurement::Illuminance(m)),
                Err(e) => Err(e),
            },
            SensorDriver::Atmosphere(d) => match d._read(exchange) {
                Ok(m) => Ok(Measurement::Atmosphere(m)),
                Err(e) => Err(e),
            },
            SensorDriver::Clock(d) => match d._read(exchange) {
                Ok(m) => Ok(Measurement::Clock(m)),
                Err(e) => Err(e),
            },
            SensorDriver::Range(d) => match d._read(exchange) {
                Ok(m) => Ok(Measurement::Range(m)),
                Err(e) => Err(e),
            },
            SensorDriver::Motion(d) => match d._read(exchange) {
                Ok(m) => Ok(Measurement::Acceleration(m)),
                Err(e) => Err(e),
            },
        }
    }
}

/// A driver that is well formed reads as the catalog says of its part.
pub proof fn lemma_reading_by_kind(driver: SensorDriver, exchange: Exchange)
    requires
        driver.wf(),
    ensures
        driver.reading(exchange) == reading_of(driver.kind(), exchange),
{
}

} // verus!
