use sensing::dtos::measurement::base::{Measurement, ReadOutcome};
use sensing::dtos::measurement::sensor::bh1750::BH1750SensorMeasurement;
use sensing::dtos::measurement::sensor::bme280::BME280SensorMeasurement;
use sensing::dtos::measurement::sensor::ds323x::DS323XSensorMeasurement;
use sensing::dtos::measurement::sensor::lsm303dlhc::mag::LSM303DLHCMAGSensorMeasurement;
use sensing::dtos::measurement::sensor::vl53l0x::VL53L0XSensorMeasurement;
use sensing::dtos::response::services::sensing_client::{SensingClientServiceResponseDTO, Slot};
use sensing::enums::condition::LightCondition;
use sensing::enums::failure::FailureReason;
use sensing::enums::kind::SensorKind;
use sensing::enums::proximity::ProximityClass;
use sensing::values::datetime::UtcDateTime;
use sensing::values::fixed::Fixed;

fn fixed(thousandths: i64) -> Fixed {
    Fixed::from_thousandths(thousandths)
}

fn report(data: Vec<Slot>) -> SensingClientServiceResponseDTO {
    SensingClientServiceResponseDTO {
        device_urn: "urn:device:001".to_string(),
        location_urn: "urn:location:lab".to_string(),
        cycle_id: 7,
        data,
    }
}

fn measured(kind: SensorKind, m: Measurement) -> Slot {
    Slot { kind, outcome: ReadOutcome::Measurement(m) }
}

fn full_report() -> SensingClientServiceResponseDTO {
    report(vec![
        measured(
            SensorKind::Bh1750,
            Measurement::Illuminance(BH1750SensorMeasurement {
                lux: fixed(123_400),
                condition: LightCondition::Dim,
            }),
        ),
        measured(
            SensorKind::Bme280,
            Measurement::Atmosphere(BME280SensorMeasurement {
                temperature: fixed(22_100),
                humidity: fixed(48_000),
                pressure: fixed(1_012_300),
            }),
        ),
        measured(
            SensorKind::Ds3231sn,
            Measurement::Clock(DS323XSensorMeasurement {
                datetime: UtcDateTime {
                    year: 2025,
                    month: 1,
                    day: 2,
                    hour: 3,
                    minute: 4,
                    second: 5,
                },
            }),
        ),
        measured(
            SensorKind::Vl53l0x,
            Measurement::Range(VL53L0XSensorMeasurement {
                distance_mm: 842,
                status: ProximityClass::Medium,
            }),
        ),
    ])
}

#[test]
fn wire_form_of_a_full_report() {
    assert_eq!(
        full_report().serialize(),
        "{\"status\":\"ok\",\"message\":\"all sensors read\",\"device\":\"urn:device:001\",\
         \"location\":\"urn:location:lab\",\"cycleId\":7,\"data\":{\
         \"BH1750\":{\"lux\":123.4,\"condition\":\"DIM\"},\
         \"BME280\":{\"temperature\":22.1,\"humidity\":48.0,\"pressure\":1012.3},\
         \"DS3231SN\":{\"datetime\":\"2025-01-02T03:04:05Z\"},\
         \"VL53L0X\":{\"distance_mm\":842,\"status\":\"MEDIUM\"}}}"
    );
}

#[test]
fn wire_form_of_an_empty_report() {
    assert_eq!(
        report(vec![]).serialize(),
        "{\"status\":\"ok\",\"message\":\"all sensors read\",\"device\":\"urn:device:001\",\
         \"location\":\"urn:location:lab\",\"cycleId\":7,\"data\":{}}"
    );
}

#[test]
fn wire_form_of_failures_and_motion() {
    let r = report(vec![
        Slot {
            kind: SensorKind::Bme680,
            outcome: ReadOutcome::Failure { reason: FailureReason::BusBusy },
        },
        measured(
            SensorKind::Lsm303dlhMag,
            Measurement::Acceleration(LSM303DLHCMAGSensorMeasurement {
                x: fixed(3_000),
                y: fixed(-4_000),
                z: fixed(0),
                magnitude: fixed(5_000),
                tilt: fixed(-12_345),
            }),
        ),
        Slot {
            kind: SensorKind::Lsm303dlhAccel,
            outcome: ReadOutcome::Failure { reason: FailureReason::ProtocolError },
        },
    ]);
    assert_eq!(
        r.serialize(),
        "{\"status\":\"partial\",\"message\":\"2 of 3 sensors failed\",\
         \"device\":\"urn:device:001\",\"location\":\"urn:location:lab\",\"cycleId\":7,\"data\":{\
         \"BME680\":{\"error\":\"BusBusy\"},\
         \"LSM303DLHMAG\":{\"x\":3.0,\"y\":-4.0,\"z\":0.0,\"magnitude\":5.0,\"tilt\":-12.345},\
         \"LSM303DLHACCEL\":{\"error\":\"ProtocolError\"}}}"
    );
}

fn lux_text(thousandths: i64) -> String {
    let r = report(vec![measured(
        SensorKind::Bh1750,
        Measurement::Illuminance(BH1750SensorMeasurement {
            lux: fixed(thousandths),
            condition: LightCondition::Normal,
        }),
    )]);
    let wire = r.serialize();
    let start = wire.find("\"lux\":").unwrap() + 6;
    let end = wire.find(",\"condition\"").unwrap();
    wire[start..end].to_string()
}

#[test]
fn numbers_drop_zeros_at_the_end_only() {
    assert_eq!(lux_text(0), "0.0");
    assert_eq!(lux_text(5), "0.005");
    assert_eq!(lux_text(50), "0.05");
    assert_eq!(lux_text(500), "0.5");
    assert_eq!(lux_text(1_000), "1.0");
    assert_eq!(lux_text(1_001), "1.001");
    assert_eq!(lux_text(1_010), "1.01");
    assert_eq!(lux_text(250_000), "250.0");
    assert_eq!(lux_text(-500), "-0.5");
    assert_eq!(lux_text(-1), "-0.001");
    assert_eq!(lux_text(i64::MAX), "9223372036854775.807");
    assert_eq!(lux_text(i64::MIN), "-9223372036854775.808");
}

#[test]
fn texts_are_escaped() {
    let r = SensingClientServiceResponseDTO {
        device_urn: "a\"b\\c\nd\u{1}é/".to_string(),
        location_urn: "\t".to_string(),
        cycle_id: u64::MAX,
        data: vec![],
    };
    assert_eq!(
        r.serialize(),
        "{\"status\":\"ok\",\"message\":\"all sensors read\",\
         \"device\":\"a\\\"b\\\\c\\u000ad\\u0001é/\",\"location\":\"\\u0009\",\
         \"cycleId\":18446744073709551615,\"data\":{}}"
    );
}

#[test]
fn written_reports_are_read_back() {
    let reports = vec![
        full_report(),
        report(vec![]),
        report(vec![
            Slot {
                kind: SensorKind::Bme680,
                outcome: ReadOutcome::Failure { reason: FailureReason::Timeout },
            },
            measured(
                SensorKind::Lsm303dlhAccel,
                Measurement::Acceleration(LSM303DLHCMAGSensorMeasurement {
                    x: fixed(-2_000),
                    y: fixed(3_000),
                    z: fixed(-6_000),
                    magnitude: fixed(7_000),
                    tilt: fixed(i64::MIN),
                }),
            ),
            measured(
                SensorKind::Vl53l0x,
                Measurement::Range(VL53L0XSensorMeasurement {
                    distance_mm: 65535,
                    status: ProximityClass::Unknown,
                }),
            ),
        ]),
        SensingClientServiceResponseDTO {
            device_urn: "a\"b\\c\nd\u{1}é/\u{10FFFF}".to_string(),
            location_urn: "".to_string(),
            cycle_id: u64::MAX,
            data: vec![Slot {
                kind: SensorKind::Bh1750,
                outcome: ReadOutcome::Failure { reason: FailureReason::DeviceNotResponding },
            }],
        },
    ];
    for r in reports {
        let wire = r.serialize();
        assert_eq!(SensingClientServiceResponseDTO::parse(&wire), Some(r));
    }
}

#[test]
fn reading_accepts_the_standard_escapes() {
    let wire = "{\"status\":\"ok\",\"message\":\"\",\"device\":\"\\u00e9\\u20AC\\n\\t\\r\\b\\f\\/\",\
                \"location\":\"x\",\"cycleId\":007,\"data\":{\"bh1750\":{\"lux\":1.50,\
                \"condition\":\"VERY_DARK\"}}}";
    let r = SensingClientServiceResponseDTO::parse(wire).unwrap();
    assert_eq!(r.device_urn, "é€\n\t\r\u{8}\u{c}/");
    assert_eq!(r.location_urn, "x");
    assert_eq!(r.cycle_id, 7);
    assert_eq!(
        r.data,
        vec![measured(
            SensorKind::Bh1750,
            Measurement::Illuminance(BH1750SensorMeasurement {
                lux: fixed(1_500),
                condition: LightCondition::VeryDark,
            }),
        )]
    );
}

fn wire_with(status: &str, cycle: &str, data: &str) -> String {
    format!(
        "{{\"status\":\"{}\",\"message\":\"m\",\"device\":\"d\",\"location\":\"l\",\
         \"cycleId\":{},\"data\":{{{}}}}}",
        status, cycle, data
    )
}

#[test]
fn reading_refuses_what_is_no_report() {
    let parse = SensingClientServiceResponseDTO::parse;
    assert!(parse(&wire_with("ok", "1", "")).is_some());
    assert!(parse(&wire_with("ok", "1", "\"BH1750\":{\"error\":\"Timeout\"}")).is_none());
    assert!(parse(&wire_with("partial", "1", "\"BH1750\":{\"error\":\"Timeout\"}")).is_some());
    assert!(parse(&wire_with("partial", "1", "")).is_none());
    assert!(parse(&wire_with("fine", "1", "")).is_none());
    assert!(parse(&wire_with("ok", "18446744073709551615", "")).is_some());
    assert!(parse(&wire_with("ok", "18446744073709551616", "")).is_none());
    assert!(parse(&wire_with("ok", "-1", "")).is_none());
    assert!(parse(&wire_with("ok", "", "")).is_none());
    assert!(parse(&wire_with("ok", "1", "\"NOSUCH\":{\"error\":\"Timeout\"}")).is_none());
    assert!(parse(&wire_with("partial", "1", "\"BH1750\":{\"error\":\"Tired\"}")).is_none());
    assert!(parse(&wire_with("ok", "1", "\"BH1750\":{\"lux\":60,\"condition\":\"DIM\"}")).is_none());
    assert!(parse(&wire_with("ok", "1", "\"BH1750\":{\"lux\":60.0,\"condition\":\"DIM\"}")).is_some());
    assert!(parse(&wire_with("ok", "1", "\"BH1750\":{\"lux\":60.0000,\"condition\":\"DIM\"}"))
        .is_none());
    assert!(parse(&wire_with("ok", "1", "\"BH1750\":{\"lux\":60.0,\"condition\":\"dim\"}")).is_none());
    assert!(parse(&wire_with("ok", "1", "\"BH1750\":{\"lux\":60.0,\"condition\":\"DIM\"},"))
        .is_none());
    assert!(parse(&wire_with(
        "ok",
        "1",
        "\"VL53L0X\":{\"distance_mm\":65536,\"status\":\"FAR\"}"
    ))
    .is_none());
    assert!(parse(&wire_with(
        "ok",
        "1",
        "\"DS3231SN\":{\"datetime\":\"2025-02-29T00:00:00Z\"}"
    ))
    .is_none());
    assert!(parse(&wire_with(
        "ok",
        "1",
        "\"DS3231SN\":{\"datetime\":\"2024-02-29T00:00:00Z\"}"
    ))
    .is_some());
    assert!(parse(&wire_with("ok", "1", "\"DS3231SN\":{\"datetime\":\"2024-02-29 00:00:00Z\"}"))
        .is_none());
    assert!(parse("").is_none());
    assert!(parse("{}").is_none());
    let good = wire_with("ok", "1", "");
    assert!(parse(&format!("{} ", good)).is_none());
    assert!(parse(&format!(" {}", good)).is_none());
    assert!(parse(&good[..good.len() - 1]).is_none());
    assert!(parse(&good.replace("\"device\":\"d\"", "\"device\":\"\\ud800\"")).is_none());
    assert!(parse(&good.replace("\"device\":\"d\"", "\"device\":\"\\x\"")).is_none());
    assert!(parse(&good.replace("\"device\":\"d\"", "\"device\":\"\u{1}\"")).is_none());
}

#[test]
fn reading_refuses_reports_that_break_their_rules() {
    let parse = SensingClientServiceResponseDTO::parse;
    let light = "\"BH1750\":{\"lux\":60.0,\"condition\":\"DIM\"}";
    assert!(parse(&wire_with("ok", "1", light)).is_some());
    assert!(parse(&wire_with("ok", "1", &format!("{},{}", light, light))).is_none());
    assert!(parse(&wire_with("ok", "1", &format!("{},{}", light, light.replace("BH", "bh"))))
        .is_none());
    assert!(parse(&wire_with("ok", "1", "\"BH1750\":{\"lux\":60.0,\"condition\":\"DARK\"}"))
        .is_none());
    assert!(parse(&wire_with("ok", "1", "\"BH1750\":{\"lux\":-0.001,\"condition\":\"VERY_DARK\"}"))
        .is_none());
    assert!(parse(&wire_with("ok", "1", "\"VL53L0X\":{\"distance_mm\":842,\"status\":\"MEDIUM\"}"))
        .is_some());
    assert!(parse(&wire_with("ok", "1", "\"VL53L0X\":{\"distance_mm\":842,\"status\":\"FAR\"}"))
        .is_none());
    assert!(parse(&wire_with("ok", "1", "\"VL53L0X\":{\"distance_mm\":842,\"status\":\"UNKNOWN\"}"))
        .is_none());
    assert!(parse(&wire_with(
        "ok",
        "1",
        "\"VL53L0X\":{\"distance_mm\":65535,\"status\":\"UNKNOWN\"}"
    ))
    .is_some());
    assert!(parse(&wire_with(
        "ok",
        "1",
        "\"VL53L0X\":{\"distance_mm\":65535,\"status\":\"OUT_OF_RANGE\"}"
    ))
    .is_some());
    let motion = |m: &str| {
        format!(
            "\"LSM303DLHMAG\":{{\"x\":3.0,\"y\":4.0,\"z\":0.0,\"magnitude\":{},\"tilt\":1.0}}",
            m
        )
    };
    assert!(parse(&wire_with("ok", "1", &motion("5.0"))).is_some());
    assert!(parse(&wire_with("ok", "1", &motion("5.001"))).is_none());
    assert!(parse(&wire_with("ok", "1", &motion("4.999"))).is_none());
    assert!(parse(&wire_with("ok", "1", &motion("-5.0"))).is_none());
}
