use sensing::abstractions::utility::IUtility;
use sensing::bus::{BusArbiter, Timed};
use sensing::configurations::sensors::SensorsConfig;
use sensing::dtos::configurations::sensors::SensorsConfigDTO;
use sensing::dtos::measurement::base::{Measurement, ReadOutcome};
use sensing::dtos::measurement::sample::Sample;
use sensing::dtos::measurement::sensor::bh1750::BH1750SensorMeasurement;
use sensing::dtos::measurement::sensor::bme280::BME280SensorMeasurement;
use sensing::dtos::measurement::sensor::vl53l0x::VL53L0XSensorMeasurement;
use sensing::dtos::response::services::sensing_client::ReportRecord;
use sensing::enums::condition::LightCondition;
use sensing::enums::error::SensingError;
use sensing::enums::failure::FailureReason;
use sensing::enums::kind::SensorKind;
use sensing::enums::proximity::ProximityClass;
use sensing::factories::sensor::SensorFactory;
use sensing::identity::DeviceIdentity;
use sensing::services::http_client::HttpClientService;
use sensing::services::sensing_client::SensingClientService;
use sensing::values::fixed::Fixed;

fn service(names: &[&str]) -> SensingClientService {
    SensingClientService::new(
        "urn:node:sensing".to_string(),
        "urn:device:001".to_string(),
        "urn:location:lab".to_string(),
        SensorsConfigDTO { included: names.iter().map(|n| n.to_string()).collect() },
    )
    .unwrap()
}

fn lux(elapsed_ms: u64) -> Timed<Result<Sample, FailureReason>> {
    Timed { value: Ok(Sample::Lux(Fixed::from_thousandths(250_000))), elapsed_ms }
}

fn range(elapsed_ms: u64) -> Timed<Result<Sample, FailureReason>> {
    Timed { value: Ok(Sample::Range(842)), elapsed_ms }
}

fn light_slot() -> ReadOutcome {
    ReadOutcome::Measurement(Measurement::Illuminance(BH1750SensorMeasurement {
        lux: Fixed::from_thousandths(250_000),
        condition: LightCondition::Normal,
    }))
}

fn range_slot() -> ReadOutcome {
    ReadOutcome::Measurement(Measurement::Range(VL53L0XSensorMeasurement {
        distance_mm: 842,
        status: ProximityClass::Medium,
    }))
}

const TIMEOUT: ReadOutcome = ReadOutcome::Failure { reason: FailureReason::Timeout };

#[test]
fn slow_sensor_times_out_after_a_quick_one() {
    let mut s = service(&["bh1750", "vl53l0x"]);
    let report = s.run_until(50, &vec![lux(20), range(200)]);
    assert_eq!(report.data.len(), 2);
    assert_eq!(report.data[0].outcome, light_slot());
    assert_eq!(report.data[1].kind, SensorKind::Vl53l0x);
    assert_eq!(report.data[1].outcome, TIMEOUT);
    assert_eq!(report.status(), "partial");
}

#[test]
fn nothing_is_kept_once_the_deadline_has_passed() {
    let mut s = service(&["bh1750", "vl53l0x"]);
    let report = s.run_until(50, &vec![lux(51), range(1)]);
    assert_eq!(report.data[0].outcome, TIMEOUT);
    assert_eq!(report.data[1].outcome, TIMEOUT);
    let report = s.run_until(0, &vec![lux(1), range(0)]);
    assert_eq!(report.data[0].outcome, TIMEOUT);
    assert_eq!(report.data[1].outcome, TIMEOUT);
}

#[test]
fn exchanges_that_end_on_the_deadline_are_kept() {
    let mut s = service(&["bh1750", "vl53l0x"]);
    let report = s.run_until(50, &vec![lux(20), range(30)]);
    assert_eq!(report.data[0].outcome, light_slot());
    assert_eq!(report.data[1].outcome, range_slot());
    assert_eq!(report.status(), "ok");
    let report = s.run_until(50, &vec![lux(20), range(31)]);
    assert_eq!(report.data[0].outcome, light_slot());
    assert_eq!(report.data[1].outcome, TIMEOUT);
    let report = s.run_until(0, &vec![lux(0), range(0)]);
    assert_eq!(report.data[1].outcome, range_slot());
    let report = s.run_until(u64::MAX, &vec![lux(u64::MAX), range(1)]);
    assert_eq!(report.data[0].outcome, light_slot());
    assert_eq!(report.data[1].outcome, TIMEOUT);
    assert_eq!(report.cycle_id, 3);
}

#[test]
fn sensors_without_exchange_time_out() {
    let mut s = service(&["bh1750", "vl53l0x"]);
    let report = s.run_until(50, &vec![lux(20)]);
    assert_eq!(report.data[0].outcome, light_slot());
    assert_eq!(report.data[1].outcome, TIMEOUT);
}

#[test]
fn report_is_worded_as_a_post_request() {
    let mut s = service(&["vl53l0x"]);
    let report = s.run_until(50, &vec![range(5)]);
    let client = HttpClientService::new(
        "urn:node:http".to_string(),
        "urn:device:001".to_string(),
        "urn:location:lab".to_string(),
        "10.0.0.7".to_string(),
    )
    .unwrap();
    let wire = report.serialize();
    assert_eq!(
        client.create_report_request(&report),
        format!(
            "POST /sensors HTTP/1.1\r\nHost: 10.0.0.7\r\nContent-Type: application/json\r\n\
             Content-Length: {}\r\nConnection: close\r\n\r\n{}",
            wire.len(),
            wire
        )
    );
}

#[test]
fn base_measurements_of_a_report() {
    let mut s = service(&["bme280", "vl53l0x", "bh1750"]);
    let report: ReportRecord = s._run(&vec![
        Ok(Sample::Atmosphere {
            temperature: Fixed::from_thousandths(21_000),
            humidity: Fixed::from_thousandths(55_000),
            pressure: Fixed::from_thousandths(1_011_000),
        }),
        Ok(Sample::Range(1)),
        Ok(Sample::Lux(Fixed::from_thousandths(250_000))),
    ]);
    let base = report.base();
    assert_eq!(
        base.bh1750,
        Some(BH1750SensorMeasurement {
            lux: Fixed::from_thousandths(250_000),
            condition: LightCondition::Normal
        })
    );
    assert_eq!(
        base.bme280,
        Some(BME280SensorMeasurement {
            temperature: Fixed::from_thousandths(21_000),
            humidity: Fixed::from_thousandths(55_000),
            pressure: Fixed::from_thousandths(1_011_000),
        })
    );
    let report = s._run(&vec![Err(FailureReason::BusBusy)]);
    let base = report.base();
    assert_eq!(base.bh1750, None);
    assert_eq!(base.bme280, None);
}

#[test]
fn identity_names_the_drivers() {
    let id = DeviceIdentity::new(
        "urn:node:registry".to_string(),
        "urn:device:001".to_string(),
        "urn:location:lab".to_string(),
    )
    .unwrap();
    assert_eq!(id.urn(), "urn:node:registry");
    assert_eq!(id.device_urn(), "urn:device:001");
    assert_eq!(id.location_urn(), "urn:location:lab");
    let d = id.of_driver(SensorKind::Ds3231sn);
    assert_eq!(d.self_urn, "urn:node:registry:ds3231sn");
    assert_eq!(d.device_urn, "urn:device:001");
    assert_eq!(d.location_urn, "urn:location:lab");
    assert!(matches!(
        DeviceIdentity::new("a".to_string(), "".to_string(), "c".to_string()),
        Err(SensingError::EmptyUrn)
    ));
    let f = SensorFactory::build(&id, &SensorsConfig::new()).unwrap();
    assert_eq!(f.urn(), "urn:node:registry");
    assert_eq!(f.len(), 2);
    assert_eq!(f.driver(0).urn(), "urn:node:registry:bme280");
    assert_eq!(f.driver(1).urn(), "urn:node:registry:bh1750");
    let broken = DeviceIdentity { self_urn: String::new(), ..id };
    assert!(matches!(
        SensorFactory::build(&broken, &SensorsConfig::new()),
        Err(SensingError::EmptyUrn)
    ));
}

#[test]
fn bus_holds_for_a_tenth_of_a_second_by_default() {
    let bus = BusArbiter::default();
    assert_eq!(bus.limit_ms, 100);
    assert_eq!(bus.holder, None);
    assert!(bus.waiters.is_empty());
}
