use chrono::{Datelike, Timelike};
use vstd::prelude::*;

verus! {

/// The latest year that a calendar date handled here may carry.
pub const LATEST_YEAR: i32 = 262142;

/// A UTC calendar date and time of day, to the whole second.
#[derive(Clone, Copy, Debug, PartialEq, Eq, Structural)]
pub struct CivilTime {
    pub year: i32,
    pub month: u32,
    pub day: u32,
    pub hour: u32,
    pub minute: u32,
    pub second: u32,
}

impl CivilTime {
    /// Each component lies in its calendar range.
    pub open spec fn wf(&self) -> bool {
        &&& 1 <= self.year <= LATEST_YEAR
        &&& 1 <= self.month <= 12
        &&& 1 <= self.day <= 31
        &&& self.hour < 24
        &&& self.minute < 60
        &&& self.second < 60
    }
}

/// A moment: milliseconds since the Unix epoch, and the same moment as a UTC calendar time.
#[derive(Clone, Copy, Debug, PartialEq, Eq, Structural)]
pub struct Instant {
    pub unix_millis: i64,
    pub civil: CivilTime,
}

impl Instant {
    pub open spec fn wf(&self) -> bool {
        self.civil.wf()
    }
}

/// Whole days from the J2000 reference day to the date of `t`, by the civil-to-Julian
/// approximation that holds from 1901 to 2099 (divisions floor).
pub open spec fn j2000_day(t: CivilTime) -> int {
    let y = t.year as int;
    let m = t.month as int;
    367 * y - 7 * ((y + (m + 9) / 12) / 4) + (275 * m) / 9 + t.day as int - 730531
}

pub open spec fn second_of_day(t: CivilTime) -> int {
    t.hour as int * 3600 + t.minute as int * 60 + t.second as int
}

/// The fractional day number since J2000 (the reference falls half a day before the
/// start of `j2000_day`), scaled by the 86400 seconds of a day so that it is whole.
pub open spec fn j2000_seconds(t: CivilTime) -> int {
    j2000_day(t) * 86400 - 43200 + second_of_day(t)
}

/// The day number since J2000 of `t`, in seconds: divide by 86400 for days.
pub fn seconds_since_j2000(t: &CivilTime) -> (r: i64)
    requires
        t.wf(),
    ensures
        r == j2000_seconds(*t),
{
    let y: i64 = t.year as i64;
    let m: i64 = t.month as i64;
    let day: i64 = 367 * y - 7 * ((y + (m + 9) / 12) / 4) + (275 * m) / 9 + t.day as i64
        - 730531;
    let sod: i64 = t.hour as i64 * 3600 + t.minute as i64 * 60 + t.second as i64;
    day * 86400 - 43200 + sod
}

/// The latest Unix time, in seconds, that `instant_at` reads as a calendar time.
pub const LATEST_UNIX_SECS: i64 = 8_000_000_000_000;

/// A Unix time given as whole seconds and nanoseconds that `instant_at` accepts: not
/// before the epoch, not past `LATEST_UNIX_SECS`, and no more than a second's worth of
/// nanoseconds.
pub open spec fn readable_time(unix_secs: i64, subsec_nanos: u32) -> bool {
    0 <= unix_secs <= LATEST_UNIX_SECS && subsec_nanos < 1_000_000_000
}

/// Relies on chrono::DateTime::from_timestamp, which returns `None` rather than failing
/// when the seconds lie outside chrono's dates or the nanoseconds are invalid, and on the
/// calendar accessors of its result. Its dates run from year -262143 to 262142; the
/// seconds below `LATEST_UNIX_SECS` fall well inside them, and with fewer than a second's
/// nanoseconds they are always accepted. A time not before the epoch is in 1970 or later;
/// `hour`, `minute` and `second` split a second of the day below 86400.
#[verifier::external_body]
pub(crate) fn civil_at(unix_secs: i64, subsec_nanos: u32) -> (r: Option<CivilTime>)
    ensures
        readable_time(unix_secs, subsec_nanos) ==> r.is_some(),
        r matches Some(c) ==> {
            &&& -262143 <= c.year <= LATEST_YEAR
            &&& 1 <= c.month <= 12
            &&& 1 <= c.day <= 31
            &&& c.hour < 24
            &&& c.minute < 60
            &&& c.second < 60
        },
        unix_secs >= 0 ==> (r matches Some(c) ==> c.year >= 1970),
{
    match chrono::DateTime::from_timestamp(unix_secs, subsec_nanos) {
        Some(t) => Some(
            CivilTime {
                year: t.year(),
                month: t.month(),
                day: t.day(),
                hour: t.hour(),
                minute: t.minute(),
                second: t.second(),
            },
        ),
        None => None,
    }
}

/// The moment `unix_secs` seconds and `subsec_nanos` nanoseconds after the Unix epoch,
/// or `None` when that time is not readable.
pub fn instant_at(unix_secs: i64, subsec_nanos: u32) -> (r: Option<Instant>)
    ensures
        r.is_some() <==> readable_time(unix_secs, subsec_nanos),
        r matches Some(i) ==> i.wf() && i.unix_millis == unix_secs * 1000 + subsec_nanos
            / 1_000_000,
{
    if unix_secs < 0 || unix_secs > LATEST_UNIX_SECS || subsec_nanos >= 1_000_000_000 {
        return None;
    }
    match civil_at(unix_secs, subsec_nanos) {
        Some(civil) => Some(
            Instant { unix_millis: unix_secs * 1000 + (subsec_nanos / 1_000_000) as i64, civil },
        ),
        None => None,
    }
}

} // verus!
