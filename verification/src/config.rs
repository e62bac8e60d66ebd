//! Network credentials consumed once, before the core starts.

use vstd::prelude::*;

verus! {

/// Credentials of the wireless network the station joins at startup.
pub struct Config {
    pub wifi_ssid: &'static str,
    pub wifi_pwd: &'static str,
}

impl Config {
    /// The credentials compiled into the firmware: both are left blank, to be
    /// filled in per deployment.
    pub fn compiled_in() -> (config: Config)
        ensures
            config.wifi_ssid@ == ""@,
            config.wifi_pwd@ == ""@,
    {
        Config { wifi_ssid: "", wifi_pwd: "" }
    }
}

} // verus!
