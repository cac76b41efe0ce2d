//! Wi-Fi credentials and the failures that bringing the link up can report.

use vstd::prelude::*;

verus! {

/// Why the wireless link could not be brought up.
#[derive(Debug, Clone, Copy, PartialEq, Eq, Structural)]
pub enum WiFiError {
    ConnectionFailed,
    ConfigurationError,
    NetworkError,
    InitializationFailed,
    DhcpFailed,
}

/// Network name and passphrase, fixed for the life of the process.
pub struct WiFiFacadeConfig {
    pub ssid: &'static str,
    pub password: &'static str,
}

impl WiFiFacadeConfig {
    pub fn new(wifi_ssid: &'static str, wifi_password: &'static str) -> (config: Self)
        ensures
            config.ssid == wifi_ssid,
            config.password == wifi_password,
    {
        Self { ssid: wifi_ssid, password: wifi_password }
    }

    /// The credentials that the build was given.
    pub fn from_env(wifi_ssid: &'static str, wifi_password: &'static str) -> (config: Self)
        ensures
            config.ssid == wifi_ssid,
            config.password == wifi_password,
    {
        Self { ssid: wifi_ssid, password: wifi_password }
    }
}

} // verus!
