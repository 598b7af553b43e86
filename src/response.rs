use vstd::prelude::*;

verus! {

// The device reports some quantities as single-precision floats. They pass through this
// library untouched, so each is held as its IEEE-754 bit pattern (`f32::to_bits`), which
// `f32::from_bits` turns back into the value.

/// The decoded status document of one metering device.
#[derive(Clone, Debug)]
pub struct ShellyResponse {
    pub wifi_sta: WifiStats,
    pub cloud: CloudStats,
    pub mqtt: MqttStats,
    pub time: String,
    pub unixtime: u128,
    pub serial: u64,
    pub has_update: bool,
    pub mac: String,
    pub cfg_changed_cnt: u64,
    pub actions_stats: ActionStats,
    pub relays: Vec<Relay>,
    pub meters: Vec<Meter>,
    /// Bit pattern of the device temperature in degrees Celsius.
    pub temperature: u32,
    pub overtemperature: bool,
    pub tmp: TempStats,
    pub update: Update,
    pub ram_total: i64,
    pub ram_free: i64,
    pub fs_size: i64,
    pub fs_free: i64,
    pub uptime: i64,
}

#[derive(Clone, Debug)]
pub struct WifiStats {
    pub connected: bool,
    pub rssi: i16,
    pub ssid: String,
    pub ip: String,
}

#[derive(Clone, Copy, Debug, PartialEq, Eq, Structural)]
pub struct CloudStats {
    pub enabled: bool,
    pub connected: bool,
}

#[derive(Clone, Copy, Debug, PartialEq, Eq, Structural)]
pub struct MqttStats {
    pub connected: bool,
}

#[derive(Clone, Copy, Debug, PartialEq, Eq, Structural)]
pub struct ActionStats {
    pub skipped: i32,
}

#[derive(Clone, Debug)]
pub struct Relay {
    pub ison: bool,
    pub has_timer: bool,
    pub timer_started: i32,
    pub timer_duration: i32,
    pub timer_remaining: i32,
    pub overpower: bool,
    pub source: String,
}

#[derive(Clone, Debug)]
pub struct Meter {
    /// Bit pattern of the instantaneous power in watts.
    pub power: u32,
    /// Bit pattern of the overpower threshold.
    pub overpower: u32,
    pub is_valid: bool,
    pub timestamp: u64,
    /// Bit patterns of the recent per-minute energy counters.
    pub counters: Vec<u32>,
    /// Bit pattern of the cumulative energy total.
    pub total: u32,
}

#[derive(Clone, Copy, Debug, PartialEq, Eq, Structural)]
pub struct TempStats {
    /// Bit pattern of the temperature in degrees Celsius.
    pub t_c: u32,
    /// Bit pattern of the temperature in degrees Fahrenheit.
    pub t_f: u32,
    pub is_valid: bool,
}

#[derive(Clone, Debug)]
pub struct Update {
    pub status: String,
    pub has_update: bool,
    pub new_version: String,
    pub old_version: String,
}

} // verus!
