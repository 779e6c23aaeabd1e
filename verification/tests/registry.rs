use sensing::abstractions::factory::IFactory;
use sensing::abstractions::sensor::ISensor;
use sensing::abstractions::utility::IUtility;
use sensing::config::{Config, ConfigError, ConfigField};
use sensing::configurations::sensors::SensorsConfig;
use sensing::dtos::configurations::sensors::SensorsConfigDTO;
use sensing::enums::error::SensingError;
use sensing::enums::kind::SensorKind;
use sensing::factories::sensor::SensorFactory;
use sensing::sensors::driver::SensorDriver;
use sensing::services::sensing_client::SensingClientService;

fn dto(names: &[&str]) -> SensorsConfigDTO {
    SensorsConfigDTO { included: names.iter().map(|n| n.to_string()).collect() }
}

fn factory(names: &[&str]) -> SensorFactory {
    let config = SensorsConfig::from_dto(&dto(names)).unwrap();
    SensorFactory::new(
        "urn:node:registry".to_string(),
        "urn:device:001".to_string(),
        "urn:location:lab".to_string(),
        &config,
    )
    .unwrap()
}

#[test]
fn default_configuration() {
    let c = SensorsConfig::new();
    assert_eq!(c.included, vec![SensorKind::Bme280, SensorKind::Bh1750]);
}

#[test]
fn names_select_parts_once_and_in_order() {
    let c = SensorsConfig::from_dto(&dto(&["vl53l0x", "BH1750", "bh1750", "Vl53L0x", "bme680"]))
        .unwrap();
    assert_eq!(c.included, vec![SensorKind::Vl53l0x, SensorKind::Bh1750, SensorKind::Bme680]);
    let c = SensorsConfig::from_dto(&dto(&[])).unwrap();
    assert!(c.included.is_empty());
}

#[test]
fn first_unknown_name_is_reported() {
    assert_eq!(
        SensorsConfig::from_dto(&dto(&["bh1750", "tmp36", "bme280", "nosuch"])),
        Err(SensingError::UnknownSensor { position: 1 })
    );
    assert_eq!(
        SensorsConfig::from_dto(&dto(&[""])),
        Err(SensingError::UnknownSensor { position: 0 })
    );
}

#[test]
fn registry_builds_each_driver_once() {
    let f = factory(&["bh1750", "bme280", "bh1750", "ds3231sn", "vl53l0x", "lsm303dlhmag"]);
    assert_eq!(f.len(), 5);
    let active = f.active();
    let kinds: Vec<SensorKind> = active.iter().map(|(k, _)| *k).collect();
    assert_eq!(
        kinds,
        vec![
            SensorKind::Bh1750,
            SensorKind::Bme280,
            SensorKind::Ds3231sn,
            SensorKind::Vl53l0x,
            SensorKind::Lsm303dlhMag
        ]
    );
    for (kind, driver) in active {
        assert_eq!(driver.name(), kind.name());
        assert_eq!(driver.urn(), format!("urn:node:registry:{}", kind.name()));
        assert_eq!(driver.device_urn(), "urn:device:001");
        assert_eq!(driver.location_urn(), "urn:location:lab");
        assert_eq!(driver.sensor_kind(), kind);
    }
    assert_eq!(f.urn(), "urn:node:registry");
    assert_eq!(f.device_urn(), "urn:device:001");
    assert_eq!(f.location_urn(), "urn:location:lab");
}

#[test]
fn registry_hands_out_drivers_by_name() {
    let f = factory(&["BH1750", "bme680"]);
    let d = f.get("bh1750").unwrap();
    assert!(matches!(d, SensorDriver::Illuminance(_)));
    assert_eq!(d.urn(), "urn:node:registry:bh1750");
    let d = f.get("bme680").unwrap();
    assert!(matches!(d, SensorDriver::Atmosphere(_)));
    assert_eq!(d.name(), "bme680");
    assert!(matches!(f.get("BME680"), Err(SensingError::NotFound)));
    assert!(matches!(f.get("BH1750"), Err(SensingError::NotFound)));
    assert!(matches!(f._get("Bh1750"), Err(SensingError::NotFound)));
    assert!(matches!(f._get("bh1750 "), Err(SensingError::NotFound)));
    assert!(matches!(f.get("bme280"), Err(SensingError::NotFound)));
    assert!(matches!(f.get("nosuch"), Err(SensingError::NotFound)));
    assert!(matches!(f._get(""), Err(SensingError::NotFound)));
    assert_eq!(f.driver(1).name(), "bme680");
}

#[test]
fn empty_names_are_refused() {
    let config = SensorsConfig::new();
    let urn = || "urn:x".to_string();
    assert!(matches!(
        SensorFactory::new(String::new(), urn(), urn(), &config),
        Err(SensingError::EmptyUrn)
    ));
    assert!(matches!(
        SensorFactory::new(urn(), String::new(), urn(), &config),
        Err(SensingError::EmptyUrn)
    ));
    assert!(matches!(
        SensorFactory::new(urn(), urn(), String::new(), &config),
        Err(SensingError::EmptyUrn)
    ));
    assert!(matches!(
        SensingClientService::new(String::new(), urn(), urn(), dto(&["nosuch"])),
        Err(SensingError::EmptyUrn)
    ));
    assert!(matches!(
        SensorDriver::build(SensorKind::Bh1750, "urn:x", "", "urn:x"),
        Err(SensingError::EmptyUrn)
    ));
    let d = SensorDriver::build(SensorKind::Bh1750, "", "urn:d", "urn:l").unwrap();
    assert_eq!(d.urn(), ":bh1750");
}

#[test]
fn configuration_needs_every_setting() {
    let s = |t: &str| t.to_string();
    let c = Config::new(s("urn:d"), s("urn:l"), s("ssid"), s("secret"), s("http://server"))
        .unwrap();
    assert_eq!(c.device_urn, "urn:d");
    assert_eq!(c.location_urn, "urn:l");
    assert_eq!(c.wifi_ssid, "ssid");
    assert_eq!(c.wifi_password, "secret");
    assert_eq!(c.server_base_url, "http://server");
    assert_eq!(
        Config::new(s(""), s(""), s(""), s(""), s("")),
        Err(ConfigError::Missing(ConfigField::DeviceUrn))
    );
    assert_eq!(
        Config::new(s("d"), s(""), s(""), s("p"), s("u")),
        Err(ConfigError::Missing(ConfigField::LocationUrn))
    );
    assert_eq!(
        Config::new(s("d"), s("l"), s(""), s("p"), s("")),
        Err(ConfigError::Missing(ConfigField::WifiSsid))
    );
    assert_eq!(
        Config::new(s("d"), s("l"), s("w"), s(""), s("u")),
        Err(ConfigError::Missing(ConfigField::WifiPassword))
    );
    assert_eq!(
        Config::new(s("d"), s("l"), s("w"), s("p"), s("")),
        Err(ConfigError::Missing(ConfigField::ServerBaseUrl))
    );
}

#[test]
fn service_keeps_its_names_and_counts_cycles() {
    let mut s = SensingClientService::new(
        "urn:node:sensing".to_string(),
        "urn:device:001".to_string(),
        "urn:location:lab".to_string(),
        dto(&["BH1750", "bh1750"]),
    )
    .unwrap();
    assert_eq!(s.urn(), "urn:node:sensing");
    assert_eq!(s.device_urn(), "urn:device:001");
    assert_eq!(s.location_urn(), "urn:location:lab");
    assert_eq!(s.config().included, vec!["BH1750".to_string(), "bh1750".to_string()]);
    assert_eq!(s.factory.len(), 1);
    assert_eq!(s._run(&vec![]).cycle_id, 0);
    assert_eq!(s._run(&vec![]).cycle_id, 1);
    assert_eq!(s._run(&vec![]).cycle_id, 2);
    s.cycles = u64::MAX;
    assert_eq!(s._run(&vec![]).cycle_id, u64::MAX);
    assert_eq!(s._run(&vec![]).cycle_id, u64::MAX);
    let report = s._run(&vec![]);
    assert_eq!(report.data.len(), 1);
    assert_eq!(report.data[0].kind.report_key(), "BH1750");
}

#[test]
fn empty_configuration_gives_an_empty_report() {
    let mut s = SensingClientService::new(
        "urn:node:sensing".to_string(),
        "urn:device:001".to_string(),
        "urn:location:lab".to_string(),
        dto(&[]),
    )
    .unwrap();
    let report = s._run(&vec![]);
    assert!(report.data.is_empty());
    assert_eq!(report.status(), "ok");
    assert_eq!(report.device_urn, "urn:device:001");
}
