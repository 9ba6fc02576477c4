//! Compile-time configuration of the device.

use vstd::prelude::*;

verus! {

/// GPIO of the toggle button (active low).
pub const BUTTON_PIN: u8 = 9;

/// GPIO of the LED strip's data line.
pub const LED_PIN: u8 = 8;

/// GPIO of the battery voltage divider.
pub const BATTERY_ADC_PIN: u8 = 4;

/// Number of pixels on the strip: one status pixel and seven energy pixels.
pub const NUM_LEDS: usize = 8;

/// Global brightness, and the value of the energy gradient.
pub const LED_BRIGHTNESS: u8 = 128;

/// Index of the status pixel.
pub const LED_STATUS: usize = 0;

/// Index of the first energy pixel.
pub const LED_ENERGY_START: usize = 1;

/// Number of energy pixels.
pub const LED_ENERGY_COUNT: usize = 7;

/// A press that starts sooner than this after the last gesture is bounce.
pub const BUTTON_DEBOUNCE_MS: u64 = 50;

/// A press held at least this long is a long press.
pub const BUTTON_LONG_PRESS_MS: u64 = 2000;

/// Interval at which a pressed button is sampled.
pub const BUTTON_POLL_MS: u64 = 50;

/// Timeout of each connect, write and read of a toggle request.
pub const API_TIMEOUT_SECS: u64 = 10;

/// Number of attempts of one toggle request.
pub const API_RETRY_COUNT: u8 = 3;

/// Timeout of joining the WiFi network.
pub const WIFI_CONNECT_TIMEOUT_SECS: u64 = 30;

/// Interval of energy meter updates.
pub const ENERGY_UPDATE_INTERVAL_MS: u64 = 300_000;

/// Length of a work session.
pub const WORK_SESSION_HOURS: u8 = 8;

/// Idle time before deep sleep.
pub const DEEP_SLEEP_MINUTES: u64 = 60;

/// Network and API settings of the device, fixed at start-up.
pub struct NetworkConfig {
    /// 2.4 GHz WiFi SSID.
    pub wifi_ssid: &'static str,
    /// WiFi password.
    pub wifi_password: &'static str,
    /// API host name or address.
    pub api_host: &'static str,
    /// API TCP port.
    pub api_port: u16,
    /// Path of the clock-toggle endpoint.
    pub api_path: &'static str,
}

/// The settings the firmware ships with.
pub fn default_network_config() -> (cfg: NetworkConfig)
    ensures
        cfg.wifi_ssid@ == "YOUR_WIFI_SSID"@,
        cfg.wifi_password@ == "YOUR_WIFI_PASSWORD"@,
        cfg.api_host@ == "192.168.1.100"@,
        cfg.api_port == 8000,
        cfg.api_path@ == "/api/timer/toggle"@,
{
    NetworkConfig {
        wifi_ssid: "YOUR_WIFI_SSID",
        wifi_password: "YOUR_WIFI_PASSWORD",
        api_host: "192.168.1.100",
        api_port: 8000,
        api_path: "/api/timer/toggle",
    }
}

} // verus!
