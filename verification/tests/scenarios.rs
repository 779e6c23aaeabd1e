use sensing::bus::Timed;
use sensing::dtos::configurations::sensors::SensorsConfigDTO;
use sensing::dtos::measurement::base::{Measurement, ReadOutcome};
use sensing::dtos::measurement::sample::Sample;
use sensing::dtos::measurement::sensor::bh1750::BH1750SensorMeasurement;
use sensing::dtos::measurement::sensor::bme280::BME280SensorMeasurement;
use sensing::dtos::measurement::sensor::ds323x::DS323XSensorMeasurement;
use sensing::dtos::measurement::sensor::vl53l0x::VL53L0XSensorMeasurement;
use sensing::enums::condition::LightCondition;
use sensing::enums::error::SensingError;
use sensing::enums::failure::FailureReason;
use sensing::enums::kind::SensorKind;
use sensing::enums::proximity::ProximityClass;
use sensing::sensors::ds323x::{DS323XSensor, SeedAction};
use sensing::services::sensing_client::SensingClientService;
use sensing::values::datetime::UtcDateTime;
use sensing::values::fixed::Fixed;

fn service(names: &[&str]) -> SensingClientService {
    SensingClientService::new(
        "urn:node:sensing".to_string(),
        "urn:device:001".to_string(),
        "urn:location:lab".to_string(),
        SensorsConfigDTO { included: names.iter().map(|n| n.to_string()).collect() },
    )
    .unwrap()
}

fn fixed(thousandths: i64) -> Fixed {
    Fixed::from_thousandths(thousandths)
}

fn atmosphere() -> Sample {
    Sample::Atmosphere {
        temperature: fixed(21_000),
        humidity: fixed(55_000),
        pressure: fixed(1_011_000),
    }
}

#[test]
fn all_sensors_answer() {
    let mut s = service(&["bh1750", "bme280"]);
    let report = s._run(&vec![Ok(Sample::Lux(fixed(250_000))), Ok(atmosphere())]);
    assert_eq!(report.data.len(), 2);
    assert_eq!(report.data[0].kind, SensorKind::Bh1750);
    assert_eq!(report.data[1].kind, SensorKind::Bme280);
    assert_eq!(report.data[0].kind.report_key(), "BH1750");
    assert_eq!(report.data[1].kind.report_key(), "BME280");
    assert_eq!(
        report.data[0].outcome,
        ReadOutcome::Measurement(Measurement::Illuminance(BH1750SensorMeasurement {
            lux: fixed(250_000),
            condition: LightCondition::Normal,
        }))
    );
    assert_eq!(
        report.data[1].outcome,
        ReadOutcome::Measurement(Measurement::Atmosphere(BME280SensorMeasurement {
            temperature: fixed(21_000),
            humidity: fixed(55_000),
            pressure: fixed(1_011_000),
        }))
    );
    assert_eq!(report.status(), "ok");
    assert!(!report.is_partial());
    assert_eq!(report.device_urn, "urn:device:001");
    assert_eq!(report.location_urn, "urn:location:lab");
    assert_eq!(report.cycle_id, 0);
}

#[test]
fn all_sensors_answer_on_the_wire() {
    let mut s = service(&["bh1750", "bme280"]);
    let report = s._run(&vec![Ok(Sample::Lux(fixed(250_000))), Ok(atmosphere())]);
    assert_eq!(
        report.serialize(),
        "{\"status\":\"ok\",\"message\":\"all sensors read\",\"device\":\"urn:device:001\",\
         \"location\":\"urn:location:lab\",\"cycleId\":0,\"data\":{\
         \"BH1750\":{\"lux\":250.0,\"condition\":\"NORMAL\"},\
         \"BME280\":{\"temperature\":21.0,\"humidity\":55.0,\"pressure\":1011.0}}}"
    );
}

#[test]
fn one_sensor_does_not_respond() {
    let mut s = service(&["bh1750", "bme280"]);
    let report = s._run(&vec![
        Ok(Sample::Lux(fixed(250_000))),
        Err(FailureReason::DeviceNotResponding),
    ]);
    assert_eq!(
        report.data[1].outcome,
        ReadOutcome::Failure { reason: FailureReason::DeviceNotResponding }
    );
    assert_eq!(
        report.data[0].outcome,
        ReadOutcome::Measurement(Measurement::Illuminance(BH1750SensorMeasurement {
            lux: fixed(250_000),
            condition: LightCondition::Normal,
        }))
    );
    assert_eq!(report.status(), "partial");
    assert_eq!(report.message(), "1 of 2 sensors failed");
    let wire = report.serialize();
    assert!(wire.contains("\"BME280\":{\"error\":\"DeviceNotResponding\"}"));
    assert!(wire.contains("\"BH1750\":{\"lux\":250.0,\"condition\":\"NORMAL\"}"));
    assert!(wire.starts_with("{\"status\":\"partial\","));
}

#[test]
fn atmosphere_failure_is_never_zeros() {
    let mut s = service(&["bme280"]);
    let report = s._run(&vec![Err(FailureReason::ProtocolError)]);
    assert_eq!(
        report.data[0].outcome,
        ReadOutcome::Failure { reason: FailureReason::DeviceNotResponding }
    );
    let report = s._run(&vec![Err(FailureReason::BusBusy)]);
    assert_eq!(report.data[0].outcome, ReadOutcome::Failure { reason: FailureReason::BusBusy });
}

fn range_outcome(exchange: Result<Sample, FailureReason>) -> ReadOutcome {
    let mut s = service(&["vl53l0x"]);
    let report = s._run(&vec![exchange]);
    assert_eq!(report.data.len(), 1);
    assert_eq!(report.data[0].kind, SensorKind::Vl53l0x);
    report.data[0].outcome
}

#[test]
fn range_is_classified() {
    assert_eq!(
        range_outcome(Ok(Sample::Range(7))),
        ReadOutcome::Measurement(Measurement::Range(VL53L0XSensorMeasurement {
            distance_mm: 7,
            status: ProximityClass::TooClose,
        }))
    );
    assert_eq!(
        range_outcome(Ok(Sample::Range(2500))),
        ReadOutcome::Measurement(Measurement::Range(VL53L0XSensorMeasurement {
            distance_mm: 2500,
            status: ProximityClass::OutOfRange,
        }))
    );
    assert_eq!(ProximityClass::TooClose.name(), "TOO_CLOSE");
    assert_eq!(ProximityClass::OutOfRange.name(), "OUT_OF_RANGE");
}

#[test]
fn range_hardware_error_is_unknown() {
    let expected = ReadOutcome::Measurement(Measurement::Range(VL53L0XSensorMeasurement {
        distance_mm: 65535,
        status: ProximityClass::Unknown,
    }));
    assert_eq!(range_outcome(Err(FailureReason::DeviceNotResponding)), expected);
    assert_eq!(range_outcome(Err(FailureReason::ProtocolError)), expected);
    assert_eq!(range_outcome(Err(FailureReason::OutOfRange)), expected);
    assert_eq!(ProximityClass::Unknown.name(), "UNKNOWN");
    let mut s = service(&["vl53l0x"]);
    let wire = s._run(&vec![Err(FailureReason::DeviceNotResponding)]).serialize();
    assert!(wire.contains("\"VL53L0X\":{\"distance_mm\":65535,\"status\":\"UNKNOWN\"}"));
}

#[test]
fn range_keeps_bus_and_deadline_failures() {
    assert_eq!(
        range_outcome(Err(FailureReason::BusBusy)),
        ReadOutcome::Failure { reason: FailureReason::BusBusy }
    );
    assert_eq!(
        range_outcome(Err(FailureReason::Timeout)),
        ReadOutcome::Failure { reason: FailureReason::Timeout }
    );
}

fn clock() -> DS323XSensor {
    DS323XSensor::new(
        "urn:node:sensing:ds3231sn".to_string(),
        "urn:device:001".to_string(),
        "urn:location:lab".to_string(),
        "ds3231sn".to_string(),
    )
    .unwrap()
}

#[test]
fn fresh_clock_is_seeded_from_now() {
    let moment =
        UtcDateTime { year: 2025, month: 1, day: 2, hour: 0, minute: 4, second: 5 };
    assert_eq!(clock().seed(false, 1_735_776_245), SeedAction::Write(moment));
    let mut s = service(&["ds3231sn"]);
    let report = s._run(&vec![Ok(Sample::Clock(moment))]);
    assert_eq!(
        report.data[0].outcome,
        ReadOutcome::Measurement(Measurement::Clock(DS323XSensorMeasurement { datetime: moment }))
    );
    assert_eq!(moment.iso8601(), "2025-01-02T00:04:05Z");
    assert!(report.serialize().contains("\"DS3231SN\":{\"datetime\":\"2025-01-02T00:04:05Z\"}"));
}

#[test]
fn clock_reads_in_utc() {
    let later = UtcDateTime { year: 2025, month: 1, day: 2, hour: 1, minute: 24, second: 5 };
    assert_eq!(clock().seed(false, 1_735_781_045), SeedAction::Write(later));
    assert_eq!(later.iso8601(), "2025-01-02T01:24:05Z");
    let epoch = UtcDateTime { year: 1970, month: 1, day: 1, hour: 0, minute: 0, second: 0 };
    assert_eq!(clock().seed(false, 0), SeedAction::Write(epoch));
    assert_eq!(epoch.iso8601(), "1970-01-01T00:00:00Z");
}

#[test]
fn clock_that_was_set_keeps_its_time() {
    assert_eq!(clock().seed(true, 1_735_776_245), SeedAction::Keep);
    assert_eq!(clock().seed(true, i64::MAX), SeedAction::Keep);
}

#[test]
fn clock_refuses_a_moment_it_cannot_hold() {
    assert_eq!(clock().seed(false, i64::MAX), SeedAction::Refuse);
    assert_eq!(clock().seed(false, 253_402_300_800), SeedAction::Refuse);
    assert_eq!(
        clock().seed(false, 253_402_300_799),
        SeedAction::Write(UtcDateTime {
            year: 9999,
            month: 12,
            day: 31,
            hour: 23,
            minute: 59,
            second: 59
        })
    );
    assert_eq!(clock().seed(false, -62_167_219_201), SeedAction::Refuse);
    assert_eq!(
        clock().seed(false, -1),
        SeedAction::Write(UtcDateTime {
            year: 1969,
            month: 12,
            day: 31,
            hour: 23,
            minute: 59,
            second: 59
        })
    );
}

#[test]
fn deadline_cuts_the_cycle_short() {
    let mut s = service(&["bh1750", "vl53l0x"]);
    let report = s.run_until(
        50,
        &vec![
            Timed { value: Ok(Sample::Lux(fixed(250_000))), elapsed_ms: 10 },
            Timed { value: Ok(Sample::Range(300)), elapsed_ms: 200 },
        ],
    );
    assert_eq!(report.data.len(), 2);
    assert_eq!(
        report.data[0].outcome,
        ReadOutcome::Measurement(Measurement::Illuminance(BH1750SensorMeasurement {
            lux: fixed(250_000),
            condition: LightCondition::Normal,
        }))
    );
    assert_eq!(report.data[1].kind, SensorKind::Vl53l0x);
    assert_eq!(report.data[1].outcome, ReadOutcome::Failure { reason: FailureReason::Timeout });
    assert_eq!(report.status(), "partial");

    let report = s.run_until(
        50,
        &vec![
            Timed { value: Ok(Sample::Lux(fixed(250_000))), elapsed_ms: 60 },
            Timed { value: Ok(Sample::Range(300)), elapsed_ms: 200 },
        ],
    );
    assert_eq!(report.data.len(), 2);
    assert_eq!(report.data[0].outcome, ReadOutcome::Failure { reason: FailureReason::Timeout });
    assert_eq!(report.data[1].outcome, ReadOutcome::Failure { reason: FailureReason::Timeout });
    assert_eq!(report.message(), "2 of 2 sensors failed");
    assert!(report.serialize().contains("\"VL53L0X\":{\"error\":\"Timeout\"}"));
}

#[test]
fn unknown_sensor_stops_the_boot() {
    let r = SensingClientService::new(
        "urn:node:sensing".to_string(),
        "urn:device:001".to_string(),
        "urn:location:lab".to_string(),
        SensorsConfigDTO { included: vec!["nosuch".to_string()] },
    );
    assert!(matches!(r, Err(SensingError::UnknownSensor { position: 0 })));
    let r = SensingClientService::new(
        "urn:node:sensing".to_string(),
        "urn:device:001".to_string(),
        "urn:location:lab".to_string(),
        SensorsConfigDTO {
            included: vec!["bh1750".to_string(), "bme280".to_string(), "bmp180".to_string()],
        },
    );
    assert!(matches!(r, Err(SensingError::UnknownSensor { position: 2 })));
}

#[test]
fn seeded_moment_lies_at_the_present_second() {
    let d = clock();
    let first: i64 = -62_167_219_200;
    let last: i64 = 253_402_300_799;
    let mut now = first;
    while now <= last {
        match d.seed(false, now) {
            SeedAction::Write(moment) => {
                assert!(moment.is_valid());
                assert_eq!(moment.unix_seconds(), now);
            }
            other => panic!("{} gave {:?}", now, other),
        }
        now += 7_919_333;
    }
    for now in [first, first + 1, -1, 0, 1, 951_782_399, 951_782_400, 4_107_542_400, last - 1, last] {
        match d.seed(false, now) {
            SeedAction::Write(moment) => assert_eq!(moment.unix_seconds(), now),
            other => panic!("{} gave {:?}", now, other),
        }
    }
    assert_eq!(d.seed(false, first - 1), SeedAction::Refuse);
    assert_eq!(d.seed(false, last + 1), SeedAction::Refuse);
    assert_eq!(d.seed(false, i64::MIN), SeedAction::Refuse);
}

#[test]
fn moments_count_their_seconds_from_1970() {
    let at = |year, month, day, hour, minute, second| {
        UtcDateTime { year, month, day, hour, minute, second }.unix_seconds()
    };
    assert_eq!(at(1970, 1, 1, 0, 0, 0), 0);
    assert_eq!(at(1970, 1, 2, 0, 0, 0), 86_400);
    assert_eq!(at(1969, 12, 31, 23, 59, 59), -1);
    assert_eq!(at(2000, 2, 29, 0, 0, 0), 951_782_400);
    assert_eq!(at(2000, 3, 1, 0, 0, 0), 951_868_800);
    assert_eq!(at(2025, 1, 2, 0, 4, 5), 1_735_776_245);
    assert_eq!(at(2100, 3, 1, 0, 0, 0), 4_107_542_400);
    assert_eq!(at(1, 1, 1, 0, 0, 0), -62_135_596_800);
    assert_eq!(at(0, 1, 1, 0, 0, 0), -62_167_219_200);
    assert_eq!(at(9999, 12, 31, 23, 59, 59), 253_402_300_799);
}
