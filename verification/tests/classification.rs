use sensing::constants::condition::ConditionConstant;
use sensing::constants::distance::DistanceConstant;
use sensing::constants::sensor::SensorConstant;
use sensing::constants::unit::UnitConstant;
use sensing::enums::condition::LightCondition;
use sensing::enums::failure::FailureReason;
use sensing::enums::kind::SensorKind;
use sensing::enums::proximity::ProximityClass;
use sensing::sensors::bh1750::get_light_condition;
use sensing::sensors::vl53l0x::VL53L0XSensor;
use sensing::values::fixed::Fixed;

fn light(thousandths: i64) -> LightCondition {
    get_light_condition(Fixed::from_thousandths(thousandths))
}

fn ranger() -> VL53L0XSensor {
    VL53L0XSensor::new(
        "urn:node:sensing:vl53l0x".to_string(),
        "urn:device:001".to_string(),
        "urn:location:lab".to_string(),
        "vl53l0x".to_string(),
    )
    .unwrap()
}

#[test]
fn light_bins_keep_their_upper_bounds() {
    assert_eq!(light(0), LightCondition::VeryDark);
    assert_eq!(light(10_000), LightCondition::VeryDark);
    assert_eq!(light(10_001), LightCondition::Dark);
    assert_eq!(light(50_000), LightCondition::Dark);
    assert_eq!(light(50_001), LightCondition::Dim);
    assert_eq!(light(200_000), LightCondition::Dim);
    assert_eq!(light(200_001), LightCondition::Normal);
    assert_eq!(light(250_000), LightCondition::Normal);
    assert_eq!(light(1_000_000), LightCondition::Normal);
    assert_eq!(light(1_000_001), LightCondition::Bright);
    assert_eq!(light(5_000_000), LightCondition::Bright);
    assert_eq!(light(5_000_001), LightCondition::VeryBright);
    assert_eq!(light(10_000_000), LightCondition::VeryBright);
    assert_eq!(light(10_000_001), LightCondition::Extreme);
    assert_eq!(light(i64::MAX), LightCondition::Extreme);
}

#[test]
fn range_bins_keep_their_upper_bounds() {
    let s = ranger();
    assert_eq!(s.get_distance_status(0), ProximityClass::TooClose);
    assert_eq!(s.get_distance_status(10), ProximityClass::TooClose);
    assert_eq!(s.get_distance_status(11), ProximityClass::VeryClose);
    assert_eq!(s.get_distance_status(50), ProximityClass::VeryClose);
    assert_eq!(s.get_distance_status(51), ProximityClass::Close);
    assert_eq!(s.get_distance_status(200), ProximityClass::Close);
    assert_eq!(s.get_distance_status(201), ProximityClass::Near);
    assert_eq!(s.get_distance_status(500), ProximityClass::Near);
    assert_eq!(s.get_distance_status(501), ProximityClass::Medium);
    assert_eq!(s.get_distance_status(1000), ProximityClass::Medium);
    assert_eq!(s.get_distance_status(1001), ProximityClass::Far);
    assert_eq!(s.get_distance_status(2000), ProximityClass::Far);
    assert_eq!(s.get_distance_status(2001), ProximityClass::OutOfRange);
    assert_eq!(s.get_distance_status(u16::MAX), ProximityClass::OutOfRange);
}

fn light_rank(c: LightCondition) -> u8 {
    match c {
        LightCondition::VeryDark => 0,
        LightCondition::Dark => 1,
        LightCondition::Dim => 2,
        LightCondition::Normal => 3,
        LightCondition::Bright => 4,
        LightCondition::VeryBright => 5,
        LightCondition::Extreme => 6,
    }
}

fn range_rank(c: ProximityClass) -> u8 {
    match c {
        ProximityClass::TooClose => 0,
        ProximityClass::VeryClose => 1,
        ProximityClass::Close => 2,
        ProximityClass::Near => 3,
        ProximityClass::Medium => 4,
        ProximityClass::Far => 5,
        ProximityClass::OutOfRange => 6,
        ProximityClass::Unknown => 7,
    }
}

#[test]
fn brighter_light_never_ranks_lower() {
    let mut last = 0;
    let mut lux: i64 = 0;
    while lux <= 12_000_000 {
        let rank = light_rank(light(lux));
        assert!(rank >= last);
        last = rank;
        lux += 997;
    }
    assert_eq!(last, 6);
}

#[test]
fn longer_range_never_ranks_lower() {
    let s = ranger();
    let mut last = 0;
    for mm in 0..=u16::MAX {
        let rank = range_rank(s.get_distance_status(mm));
        assert!(rank >= last);
        last = rank;
    }
    assert_eq!(last, 6);
}

#[test]
fn names_are_found_again() {
    let lights = [
        (LightCondition::VeryDark, "VERY_DARK"),
        (LightCondition::Dark, "DARK"),
        (LightCondition::Dim, "DIM"),
        (LightCondition::Normal, "NORMAL"),
        (LightCondition::Bright, "BRIGHT"),
        (LightCondition::VeryBright, "VERY_BRIGHT"),
        (LightCondition::Extreme, "EXTREME"),
    ];
    for (c, name) in lights {
        assert_eq!(c.name(), name);
        assert_eq!(LightCondition::from_name(name), Some(c));
    }
    assert_eq!(LightCondition::from_name("normal"), None);
    let ranges = [
        (ProximityClass::TooClose, "TOO_CLOSE"),
        (ProximityClass::VeryClose, "VERY_CLOSE"),
        (ProximityClass::Close, "CLOSE"),
        (ProximityClass::Near, "NEAR"),
        (ProximityClass::Medium, "MEDIUM"),
        (ProximityClass::Far, "FAR"),
        (ProximityClass::OutOfRange, "OUT_OF_RANGE"),
        (ProximityClass::Unknown, "UNKNOWN"),
    ];
    for (c, name) in ranges {
        assert_eq!(c.name(), name);
        assert_eq!(ProximityClass::from_name(name), Some(c));
    }
    assert_eq!(ProximityClass::from_name(""), None);
    let failures = [
        (FailureReason::BusBusy, "BusBusy"),
        (FailureReason::DeviceNotResponding, "DeviceNotResponding"),
        (FailureReason::OutOfRange, "OutOfRange"),
        (FailureReason::ProtocolError, "ProtocolError"),
        (FailureReason::Timeout, "Timeout"),
    ];
    for (f, name) in failures {
        assert_eq!(f.name(), name);
        assert_eq!(FailureReason::from_name(name), Some(f));
    }
    assert_eq!(FailureReason::from_name("timeout"), None);
    assert!(FailureReason::DeviceNotResponding.is_of_part());
    assert!(FailureReason::OutOfRange.is_of_part());
    assert!(FailureReason::ProtocolError.is_of_part());
    assert!(!FailureReason::BusBusy.is_of_part());
    assert!(!FailureReason::Timeout.is_of_part());
}

#[test]
fn catalog_names_and_keys() {
    let kinds = [
        (SensorKind::Bh1750, "bh1750", "BH1750"),
        (SensorKind::Bme280, "bme280", "BME280"),
        (SensorKind::Bme680, "bme680", "BME680"),
        (SensorKind::Ds3231sn, "ds3231sn", "DS3231SN"),
        (SensorKind::Lsm303dlhAccel, "lsm303dlhaccel", "LSM303DLHACCEL"),
        (SensorKind::Lsm303dlhMag, "lsm303dlhmag", "LSM303DLHMAG"),
        (SensorKind::Vl53l0x, "vl53l0x", "VL53L0X"),
    ];
    for (kind, name, key) in kinds {
        assert_eq!(kind.name(), name);
        assert_eq!(kind.report_key(), key);
        assert_eq!(SensorKind::from_name(name), Some(kind));
        assert_eq!(SensorKind::from_name(key), Some(kind));
    }
    assert_eq!(SensorKind::from_name("Bh1750"), Some(SensorKind::Bh1750));
    assert_eq!(SensorKind::from_name("bh1750 "), None);
    assert_eq!(SensorKind::from_name(""), None);
    assert_eq!(SensorKind::from_name("nosuch"), None);
}

#[test]
fn constants_hold_their_texts() {
    assert_eq!(SensorConstant::BH1750, "bh1750");
    assert_eq!(SensorConstant::BME280, "bme280");
    assert_eq!(SensorConstant::BME680, "bme680");
    assert_eq!(SensorConstant::DS3231SN, "ds3231sn");
    assert_eq!(SensorConstant::LSM303DLHACCEL, "lsm303dlhaccel");
    assert_eq!(SensorConstant::LSM303DLHMAG, "lsm303dlhmag");
    assert_eq!(SensorConstant::VL5310X, "vl53l0x");
    assert_eq!(DistanceConstant::UNIT, "meter");
    assert_eq!(DistanceConstant::TOO_CLOSE, "TOO_CLOSE");
    assert_eq!(DistanceConstant::UNKNOWN, "UNKNOWN");
    assert_eq!(DistanceConstant::FAR_MAX_MM, 2000);
    assert_eq!(ConditionConstant::EXTREME, "EXTREME");
    assert_eq!(ConditionConstant::VERY_BRIGHT_MAX, 10_000_000);
    assert_eq!(UnitConstant::TEMPERATURE, "°C");
    assert_eq!(UnitConstant::HUMIDITY, "%");
    assert_eq!(UnitConstant::PRESSURE, "hPa");
    assert_eq!(UnitConstant::LUMINOSITY, "lux");
    assert_eq!(UnitConstant::DISTANCE, "mm");
    assert_eq!(UnitConstant::ACCELERATION, "m/s²");
    assert_eq!(UnitConstant::MAGNETIC_FIELD, "µT");
}
