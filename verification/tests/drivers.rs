use sensing::abstractions::sensor::ISensor;
use sensing::abstractions::utility::IUtility;
use sensing::dtos::measurement::sample::Sample;
use sensing::dtos::measurement::sensor::bh1750::BH1750SensorMeasurement;
use sensing::dtos::measurement::sensor::bme280::BME280SensorMeasurement;
use sensing::dtos::measurement::sensor::ds323x::DS323XSensorMeasurement;
use sensing::dtos::measurement::sensor::lsm303dlhc::mag::LSM303DLHCMAGSensorMeasurement;
use sensing::enums::condition::LightCondition;
use sensing::enums::error::SensingError;
use sensing::enums::failure::FailureReason;
use sensing::sensors::bh1750::BH1750Sensor;
use sensing::sensors::bme280::BME280Sensor;
use sensing::sensors::ds323x::{to_moment, CalendarFields, DS323XSensor, SeedAction};
use sensing::dtos::measurement::sensor::lsm303dlhc::mag::magnitude;
use sensing::sensors::lsm303dlhc::accel::LSM303DLHCSensor;
use sensing::sensors::vl53l0x::VL53L0XSensor;
use sensing::values::datetime::UtcDateTime;
use sensing::values::fixed::Fixed;

fn s(t: &str) -> String {
    t.to_string()
}

fn fixed(thousandths: i64) -> Fixed {
    Fixed::from_thousandths(thousandths)
}

#[test]
fn light_driver_reads() {
    let d = BH1750Sensor::new(s("u"), s("d"), s("l"), s("bh1750")).unwrap();
    assert_eq!(d.urn(), "u");
    assert_eq!(d.device_urn(), "d");
    assert_eq!(d.location_urn(), "l");
    assert_eq!(d.name(), "bh1750");
    assert_eq!(
        d.read(Ok(Sample::Lux(fixed(0)))),
        Ok(BH1750SensorMeasurement { lux: fixed(0), condition: LightCondition::VeryDark })
    );
    assert_eq!(
        d._read(Ok(Sample::Lux(fixed(54_612_500)))),
        Ok(BH1750SensorMeasurement { lux: fixed(54_612_500), condition: LightCondition::Extreme })
    );
    assert_eq!(d.read(Ok(Sample::Lux(fixed(-1)))), Err(FailureReason::OutOfRange));
    assert_eq!(d.read(Ok(Sample::Range(1))), Err(FailureReason::ProtocolError));
    assert_eq!(d.read(Err(FailureReason::BusBusy)), Err(FailureReason::BusBusy));
    assert_eq!(
        d.read(Err(FailureReason::DeviceNotResponding)),
        Err(FailureReason::DeviceNotResponding)
    );
}

#[test]
fn drivers_check_their_names() {
    assert!(matches!(
        BH1750Sensor::new(s("u"), s("d"), s("l"), s("bme280")),
        Err(SensingError::WrongName)
    ));
    assert!(matches!(
        BH1750Sensor::new(s("u"), s("d"), s("l"), s("nosuch")),
        Err(SensingError::WrongName)
    ));
    assert!(matches!(
        BH1750Sensor::new(s(""), s("d"), s("l"), s("nosuch")),
        Err(SensingError::EmptyUrn)
    ));
    assert!(matches!(
        BH1750Sensor::new(s("u"), s("d"), s("l"), s("BH1750")),
        Err(SensingError::WrongName)
    ));
    assert!(BH1750Sensor::new(s("u"), s("d"), s("l"), s("bh1750")).is_ok());
    assert!(BME280Sensor::new(s("u"), s("d"), s("l"), s("bme280")).is_ok());
    assert!(BME280Sensor::new(s("u"), s("d"), s("l"), s("bme680")).is_ok());
    assert!(matches!(
        BME280Sensor::new(s("u"), s("d"), s("l"), s("bh1750")),
        Err(SensingError::WrongName)
    ));
    assert!(matches!(
        BME280Sensor::new(s("u"), s("d"), s(""), s("bme280")),
        Err(SensingError::EmptyUrn)
    ));
    assert!(DS323XSensor::new(s("u"), s("d"), s("l"), s("ds3231sn")).is_ok());
    assert!(matches!(
        DS323XSensor::new(s("u"), s("d"), s("l"), s("ds3231")),
        Err(SensingError::WrongName)
    ));
    assert!(VL53L0XSensor::new(s("u"), s("d"), s("l"), s("vl53l0x")).is_ok());
    assert!(matches!(
        VL53L0XSensor::new(s("u"), s(""), s("l"), s("vl53l0x")),
        Err(SensingError::EmptyUrn)
    ));
    assert!(LSM303DLHCSensor::new(s("u"), s("d"), s("l"), s("lsm303dlhaccel")).is_ok());
    assert!(LSM303DLHCSensor::new(s("u"), s("d"), s("l"), s("lsm303dlhmag")).is_ok());
    assert!(matches!(
        LSM303DLHCSensor::new(s("u"), s("d"), s("l"), s("vl53l0x")),
        Err(SensingError::WrongName)
    ));
}

#[test]
fn atmosphere_driver_reads() {
    let d = BME280Sensor::new(s("u"), s("d"), s("l"), s("bme280")).unwrap();
    assert_eq!(
        d.read(Ok(Sample::Atmosphere {
            temperature: fixed(-40_000),
            humidity: fixed(0),
            pressure: fixed(300_000),
        })),
        Ok(BME280SensorMeasurement {
            temperature: fixed(-40_000),
            humidity: fixed(0),
            pressure: fixed(300_000),
        })
    );
    assert_eq!(d.read(Err(FailureReason::OutOfRange)), Err(FailureReason::DeviceNotResponding));
    assert_eq!(d.read(Err(FailureReason::Timeout)), Err(FailureReason::Timeout));
    assert_eq!(d.read(Ok(Sample::Lux(fixed(1)))), Err(FailureReason::ProtocolError));
}

#[test]
fn clock_driver_reads() {
    let d = DS323XSensor::new(s("u"), s("d"), s("l"), s("ds3231sn")).unwrap();
    let moment = UtcDateTime { year: 2024, month: 2, day: 29, hour: 23, minute: 59, second: 59 };
    assert_eq!(d.read(Ok(Sample::Clock(moment))), Ok(DS323XSensorMeasurement { datetime: moment }));
    assert_eq!(moment.iso8601(), "2024-02-29T23:59:59Z");
    let garbled = UtcDateTime { year: 2023, month: 2, day: 29, hour: 0, minute: 0, second: 0 };
    assert_eq!(d.read(Ok(Sample::Clock(garbled))), Err(FailureReason::ProtocolError));
    let garbled = UtcDateTime { year: 2024, month: 13, day: 1, hour: 0, minute: 0, second: 0 };
    assert_eq!(d._read(Ok(Sample::Clock(garbled))), Err(FailureReason::ProtocolError));
    let garbled = UtcDateTime { year: 2024, month: 1, day: 1, hour: 24, minute: 0, second: 0 };
    assert_eq!(d.read(Ok(Sample::Clock(garbled))), Err(FailureReason::ProtocolError));
    assert_eq!(d.read(Ok(Sample::Range(0))), Err(FailureReason::ProtocolError));
    assert_eq!(
        d.read(Err(FailureReason::DeviceNotResponding)),
        Err(FailureReason::DeviceNotResponding)
    );
}

#[test]
fn clock_seed_from_calendar_fields() {
    let d = DS323XSensor::new(s("u"), s("d"), s("l"), s("ds3231sn")).unwrap();
    let fields = |year: i32, month: u32, day: u32| CalendarFields {
        year,
        month,
        day,
        hour: 1,
        minute: 2,
        second: 3,
    };
    assert_eq!(d.seed_from(true, None), SeedAction::Keep);
    assert_eq!(d.seed_from(true, Some(fields(2025, 1, 2))), SeedAction::Keep);
    assert_eq!(d.seed_from(false, None), SeedAction::Refuse);
    assert_eq!(
        d.seed_from(false, Some(fields(2025, 1, 2))),
        SeedAction::Write(UtcDateTime {
            year: 2025,
            month: 1,
            day: 2,
            hour: 1,
            minute: 2,
            second: 3
        })
    );
    assert_eq!(d.seed_from(false, Some(fields(10_000, 1, 2))), SeedAction::Refuse);
    assert_eq!(d.seed_from(false, Some(fields(-1, 1, 2))), SeedAction::Refuse);
    assert_eq!(d.seed_from(false, Some(fields(2025, 2, 30))), SeedAction::Refuse);
    assert_eq!(d.seed_from(false, Some(fields(2025, 0, 1))), SeedAction::Refuse);
    assert_eq!(d.seed_from(false, Some(fields(2025, 256 + 1, 1))), SeedAction::Refuse);
    assert_eq!(to_moment(&fields(2025, 4, 31)), None);
    assert!(to_moment(&fields(2025, 4, 30)).is_some());
    assert_eq!(
        d.seed(false, 951_782_400),
        SeedAction::Write(UtcDateTime {
            year: 2000,
            month: 2,
            day: 29,
            hour: 0,
            minute: 0,
            second: 0
        })
    );
}

#[test]
fn motion_driver_reads() {
    let d = LSM303DLHCSensor::new(s("u"), s("d"), s("l"), s("lsm303dlhmag")).unwrap();
    assert_eq!(
        d.read(Ok(Sample::Axes { x: fixed(3_000), y: fixed(-4_000), z: fixed(0), tilt: fixed(500) })),
        Ok(LSM303DLHCMAGSensorMeasurement {
            x: fixed(3_000),
            y: fixed(-4_000),
            z: fixed(0),
            magnitude: fixed(5_000),
            tilt: fixed(500),
        })
    );
    assert_eq!(
        d.read(Ok(Sample::Axes {
            x: fixed(i64::MIN),
            y: fixed(i64::MIN),
            z: fixed(i64::MIN),
            tilt: fixed(0)
        })),
        Err(FailureReason::OutOfRange)
    );
    assert_eq!(d.read(Ok(Sample::Range(1))), Err(FailureReason::ProtocolError));
    assert_eq!(d._read(Err(FailureReason::BusBusy)), Err(FailureReason::BusBusy));
}

#[test]
fn magnitude_is_the_root_rounded_down() {
    assert_eq!(magnitude(fixed(0), fixed(0), fixed(0)), Some(fixed(0)));
    assert_eq!(magnitude(fixed(3), fixed(4), fixed(0)), Some(fixed(5)));
    assert_eq!(magnitude(fixed(1), fixed(1), fixed(1)), Some(fixed(1)));
    assert_eq!(magnitude(fixed(1_000), fixed(1_000), fixed(1_000)), Some(fixed(1_732)));
    assert_eq!(magnitude(fixed(-2_000), fixed(3_000), fixed(-6_000)), Some(fixed(7_000)));
    assert_eq!(magnitude(fixed(i64::MAX), fixed(0), fixed(0)), Some(fixed(i64::MAX)));
    assert_eq!(magnitude(fixed(i64::MIN), fixed(0), fixed(0)), None);
    assert_eq!(magnitude(fixed(i64::MAX), fixed(i64::MAX), fixed(0)), None);
}
