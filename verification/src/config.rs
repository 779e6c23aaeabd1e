use vstd::prelude::*;
use vstd::string::*;

verus! {

/// What a node must be told before it can start.
#[derive(Clone, Debug, PartialEq, Eq)]
pub struct Config {
    pub device_urn: String,
    pub location_urn: String,
    pub wifi_ssid: String,
    pub wifi_password: String,
    pub server_base_url: String,
}

/// The settings of a configuration, in the order in which they are checked.
#[derive(Clone, Copy, Debug, PartialEq, Eq, Structural)]
pub enum ConfigField {
    DeviceUrn,
    LocationUrn,
    WifiSsid,
    WifiPassword,
    ServerBaseUrl,
}

/// Why a configuration was refused.
#[derive(Clone, Copy, Debug, PartialEq, Eq, Structural)]
pub enum ConfigError {
    /// The setting is empty.
    Missing(ConfigField),
}

/// The first of the five settings that is empty, if one is.
pub open spec fn first_missing(
    device_urn: Seq<char>,
    location_urn: Seq<char>,
    wifi_ssid: Seq<char>,
    wifi_password: Seq<char>,
    server_base_url: Seq<char>,
) -> Option<ConfigField> {
    if device_urn.len() == 0 {
        Some(ConfigField::DeviceUrn)
    } else if location_urn.len() == 0 {
        Some(ConfigField::LocationUrn)
    } else if wifi_ssid.len() == 0 {
        Some(ConfigField::WifiSsid)
    } else if wifi_password.len() == 0 {
        Some(ConfigField::WifiPassword)
    } else if server_base_url.len() == 0 {
        Some(ConfigField::ServerBaseUrl)
    } else {
        None
    }
}

impl Config {
    /// No setting is empty.
    pub open spec fn wf(&self) -> bool {
        first_missing(
            self.device_urn@,
            self.location_urn@,
            self.wifi_ssid@,
            self.wifi_password@,
            self.server_base_url@,
        ) is None
    }

    /// The configuration with the given settings. All are required: the
    /// first empty one is named in the error.
    pub fn new(
        device_urn: String,
        location_urn: String,
        wifi_ssid: String,
        wifi_password: String,
        server_base_url: String,
    ) -> (r: Result<Self, ConfigError>)
        ensures
            match r {
                Ok(c) => c.wf() && c.device_urn == device_urn && c.location_urn == location_urn
                    && c.wifi_ssid == wifi_ssid && c.wifi_password == wifi_password
                    && c.server_base_url == server_base_url,
                Err(ConfigError::Missing(field)) => first_missing(
                    device_urn@,
                    location_urn@,
                    wifi_ssid@,
                    wifi_password@,
                    server_base_url@,
                ) == Some(field),
            },
    {
        if device_urn.as_str().is_empty() {
            Err(ConfigError::Missing(ConfigField::DeviceUrn))
        } else if location_urn.as_str().is_empty() {
            Err(ConfigError::Missing(ConfigField::LocationUrn))
        } else if wifi_ssid.as_str().is_empty() {
            Err(ConfigError::Missing(ConfigField::WifiSsid))
        } else if wifi_password.as_str().is_empty() {
            Err(ConfigError::Missing(ConfigField::WifiPassword))
        } else if server_base_url.as_str().is_empty() {
            Err(ConfigError::Missing(ConfigField::ServerBaseUrl))
        } else {
            Ok(Config { device_urn, location_urn, wifi_ssid, wifi_password, server_base_url })
        }
    }
}

} // verus!
