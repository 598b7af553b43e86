use vstd::prelude::*;
use vstd::string::to_string_from_display_ensures;
use crate::clock::Instant;
use crate::response::ShellyResponse;

verus! {

/// Why one device gave no reading in a cycle.
#[derive(Clone, Copy, Debug, PartialEq, Eq, Structural)]
pub enum FetchError {
    /// The request did not reach the device or got no answer in time.
    Unreachable,
    /// The answer could not be read as a status document, or lacked a relay or a meter.
    InvalidPayload,
}

/// One device-status sample, tagged with the identity of the device it came from.
/// The float readings are bit patterns, as in `ShellyResponse`.
#[derive(Clone, Debug)]
pub struct ShellyDatapoint {
    pub time: Instant,
    pub temperature: u32,
    pub uptime: i64,
    pub ram_free: i64,
    pub fs_free: i64,
    pub power: u32,
    pub power_total: u32,
    pub ip: String,
    pub mac: String,
    pub serial: String,
    pub ison: bool,
}

/// A status document yields a sample only if it reports a relay and a meter.
pub open spec fn has_reading(resp: ShellyResponse) -> bool {
    resp.relays.len() > 0 && resp.meters.len() > 0
}

/// `p` is the sample that `resp` gives at `time`: readings of the first meter and
/// relay, identity tags taken from the document, the serial number in decimal text.
pub open spec fn is_sample_of(p: ShellyDatapoint, resp: ShellyResponse, time: Instant) -> bool {
    &&& has_reading(resp)
    &&& p.time == time
    &&& p.temperature == resp.temperature
    &&& p.uptime == resp.uptime
    &&& p.ram_free == resp.ram_free
    &&& p.fs_free == resp.fs_free
    &&& p.power == resp.meters@[0].power
    &&& p.power_total == resp.meters@[0].total
    &&& p.ip@ == resp.wifi_sta.ip@
    &&& p.mac@ == resp.mac@
    &&& to_string_from_display_ensures::<u64>(&resp.serial, p.serial)
    &&& p.ison == resp.relays@[0].ison
}

impl ShellyDatapoint {
    /// The sample that `resp` gives at `time`; a document without a relay or without a
    /// meter is refused as an invalid payload.
    pub fn from_response(resp: &ShellyResponse, time: Instant) -> (r: Result<
        ShellyDatapoint,
        FetchError,
    >)
        ensures
            has_reading(*resp) <==> r.is_ok(),
            r matches Ok(p) ==> is_sample_of(p, *resp, time),
            r matches Err(e) ==> e == FetchError::InvalidPayload,
    {
        if resp.relays.len() == 0 || resp.meters.len() == 0 {
            return Err(FetchError::InvalidPayload);
        }
        let serial = resp.serial.to_string();
        let ison = resp.relays[0].ison;
        let power = resp.meters[0].power;
        let power_total = resp.meters[0].total;
        Ok(
            ShellyDatapoint {
                time,
                temperature: resp.temperature,
                uptime: resp.uptime,
                ram_free: resp.ram_free,
                fs_free: resp.fs_free,
                power,
                power_total,
                ip: resp.wifi_sta.ip.clone(),
                mac: resp.mac.clone(),
                serial,
                ison,
            },
        )
    }
}

} // verus!
