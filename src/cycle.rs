use vstd::prelude::*;
use crate::clock::{instant_at, j2000_seconds, readable_time, seconds_since_j2000, Instant};
use crate::datapoint::{has_reading, is_sample_of, FetchError, ShellyDatapoint};
use crate::response::ShellyResponse;

verus! {

/// Whether sun positions are recorded, and for which place. Latitude and longitude are
/// degrees, held as single-precision bit patterns.
#[derive(Clone, Copy, Debug, PartialEq, Eq, Structural)]
pub struct SunTracking {
    pub enabled: bool,
    pub latitude: u32,
    pub longitude: u32,
}

/// What the sun-position computation needs for one sample: the moment, its day number
/// since J2000 in seconds, and the place.
#[derive(Clone, Copy, Debug, PartialEq, Eq, Structural)]
pub struct SunRequest {
    pub time: Instant,
    pub j2000_seconds: i64,
    pub latitude: u32,
    pub longitude: u32,
}

/// One entry of a cycle's batch.
#[derive(Clone, Debug)]
pub enum Point {
    /// A device-status sample, written as measurement `shelly`.
    Status(ShellyDatapoint),
    /// A sun-position sample to compute, written as measurement `sun_position`.
    Sun(SunRequest),
}

/// The result of asking one device for its status.
pub type FetchOutcome = Result<ShellyResponse, FetchError>;

/// One device's fetch outcome, with the Unix time read as soon as it came in.
#[derive(Debug)]
pub struct Fetched {
    pub outcome: FetchOutcome,
    pub unix_secs: i64,
    pub subsec_nanos: u32,
}

/// A decoded status document as a fetch outcome: one that reports no relay or no meter
/// is an invalid payload, which the caller can report against its endpoint.
pub fn screen_response(resp: ShellyResponse) -> (r: FetchOutcome)
    ensures
        has_reading(resp) ==> r == Ok::<ShellyResponse, FetchError>(resp),
        !has_reading(resp) ==> r == Err::<ShellyResponse, FetchError>(FetchError::InvalidPayload),
{
    if resp.relays.len() == 0 || resp.meters.len() == 0 {
        Err(FetchError::InvalidPayload)
    } else {
        Ok(resp)
    }
}

/// `r` asks for the sun's position at `time` over the tracked place.
pub open spec fn is_sun_request_for(r: SunRequest, time: Instant, tracking: SunTracking) -> bool {
    &&& r.time == time
    &&& r.j2000_seconds == j2000_seconds(time.civil)
    &&& r.latitude == tracking.latitude
    &&& r.longitude == tracking.longitude
}

/// Whether a fetch yields a device sample: the document reports a relay and a meter,
/// and the time it came in can be read.
pub open spec fn yields_sample(f: Fetched) -> bool {
    &&& f.outcome matches Ok(resp) && has_reading(resp)
    &&& readable_time(f.unix_secs, f.subsec_nanos)
}

/// The Unix time in milliseconds at which a fetch came in.
pub open spec fn fetch_millis(f: Fetched) -> int {
    f.unix_secs * 1000 + f.subsec_nanos / 1_000_000
}

/// The number of points that each device with a sample contributes.
pub open spec fn points_per_device(tracking: SunTracking) -> nat {
    if tracking.enabled {
        2
    } else {
        1
    }
}

pub open spec fn points_of_outcome(o: Fetched, tracking: SunTracking) -> nat {
    if yields_sample(o) {
        points_per_device(tracking)
    } else {
        0
    }
}

/// `ps` are the points that one device contributes: nothing if it gave no sample, else
/// its status sample stamped with the valid time at which the fetch came in, followed,
/// when tracking is on, by a sun request for that same time.
pub open spec fn is_device_points(ps: Seq<Point>, o: Fetched, tracking: SunTracking) -> bool {
    if yields_sample(o) {
        &&& ps.len() == points_per_device(tracking)
        &&& ps[0] matches Point::Status(p) && {
            &&& p.time.wf()
            &&& p.time.unix_millis == fetch_millis(o)
            &&& is_sample_of(p, o.outcome->Ok_0, p.time)
            &&& tracking.enabled ==> (ps[1] matches Point::Sun(s) && is_sun_request_for(
                s,
                p.time,
                tracking,
            ))
        }
    } else {
        ps.len() == 0
    }
}

/// `ps` is the batch of a cycle whose devices, in order, gave the outcomes `os`: the
/// points of each device, one device after the other.
pub open spec fn is_batch_of(ps: Seq<Point>, os: Seq<Fetched>, tracking: SunTracking) -> bool
    decreases os.len(),
{
    if os.len() == 0 {
        ps.len() == 0
    } else {
        let k = points_of_outcome(os.last(), tracking) as int;
        &&& k <= ps.len()
        &&& is_batch_of(ps.subrange(0, ps.len() - k), os.drop_last(), tracking)
        &&& is_device_points(ps.subrange(ps.len() - k, ps.len() as int), os.last(), tracking)
    }
}

/// How many of the outcomes yield a device sample.
pub open spec fn sample_count(os: Seq<Fetched>) -> nat
    decreases os.len(),
{
    if os.len() == 0 {
        0
    } else {
        sample_count(os.drop_last()) + if yields_sample(os.last()) {
            1nat
        } else {
            0nat
        }
    }
}

/// How many of the points are device-status points.
pub open spec fn status_count(ps: Seq<Point>) -> nat
    decreases ps.len(),
{
    if ps.len() == 0 {
        0
    } else {
        status_count(ps.drop_last()) + if ps.last() is Status {
            1nat
        } else {
            0nat
        }
    }
}

/// How many of the points are sun-position points.
pub open spec fn sun_count(ps: Seq<Point>) -> nat
    decreases ps.len(),
{
    if ps.len() == 0 {
        0
    } else {
        sun_count(ps.drop_last()) + if ps.last() is Sun {
            1nat
        } else {
            0nat
        }
    }
}

proof fn lemma_counts_append(a: Seq<Point>, b: Seq<Point>)
    ensures
        status_count(a + b) == status_count(a) + status_count(b),
        sun_count(a + b) == sun_count(a) + sun_count(b),
    decreases b.len(),
{
    if b.len() == 0 {
        assert(a + b =~= a);
    } else {
        lemma_counts_append(a, b.drop_last());
        assert((a + b).drop_last() =~= a + b.drop_last());
        assert((a + b).last() == b.last());
    }
}

proof fn lemma_device_counts(ps: Seq<Point>, o: Fetched, tracking: SunTracking)
    requires
        is_device_points(ps, o, tracking),
    ensures
        status_count(ps) == (if yields_sample(o) {
            1nat
        } else {
            0nat
        }),
        sun_count(ps) == (if yields_sample(o) && tracking.enabled {
            1nat
        } else {
            0nat
        }),
{
    let none = Seq::<Point>::empty();
    assert(status_count(none) == 0 && sun_count(none) == 0);
    if ps.len() > 0 {
        let first = ps.take(1);
        assert(first.drop_last() =~= none);
        assert(first.last() == ps[0]);
        assert(status_count(first) == if ps[0] is Status {
            1nat
        } else {
            0nat
        });
        assert(sun_count(first) == if ps[0] is Sun {
            1nat
        } else {
            0nat
        });
        if ps.len() == 2 {
            assert(ps.drop_last() =~= first);
            assert(ps.last() == ps[1]);
        } else {
            assert(ps =~= first);
        }
    }
}

/// The points that one device contributes for the fetch `f`, stamped with the time at
/// which it came in.
pub fn device_points(f: &Fetched, tracking: SunTracking) -> (r: Vec<Point>)
    ensures
        is_device_points(r@, *f, tracking),
{
    let mut points: Vec<Point> = Vec::new();
    if let Ok(resp) = &f.outcome {
        if let Some(time) = instant_at(f.unix_secs, f.subsec_nanos) {
            if let Ok(sample) = ShellyDatapoint::from_response(resp, time) {
                points.push(Point::Status(sample));
                if tracking.enabled {
                    let request = SunRequest {
                        time,
                        j2000_seconds: seconds_since_j2000(&time.civil),
                        latitude: tracking.latitude,
                        longitude: tracking.longitude,
                    };
                    points.push(Point::Sun(request));
                }
            }
        }
    }
    points
}

/// The batch of one cycle: for each device in order, the points of its fetch, each
/// device sample stamped with the time at which its fetch came in. With tracking on, every
/// device sample is followed by its own sun request for that same time, so a cycle holds
/// as many sun points as device samples rather than one.
pub fn build_batch(outcomes: &Vec<Fetched>, tracking: SunTracking) -> (r: Vec<Point>)
    ensures
        is_batch_of(r@, outcomes@, tracking),
        r@.len() == sample_count(outcomes@) * points_per_device(tracking),
        status_count(r@) == sample_count(outcomes@),
        sun_count(r@) == if tracking.enabled {
            sample_count(outcomes@)
        } else {
            0
        },
{
    let mut points: Vec<Point> = Vec::new();
    let mut i: usize = 0;
    while i < outcomes.len()
        invariant
            i <= outcomes.len(),
            is_batch_of(points@, outcomes@.subrange(0, i as int), tracking),
        decreases outcomes.len() - i,
    {
        let o = &outcomes[i];
        proof {
            assert(outcomes@.subrange(0, i as int + 1) =~= outcomes@.subrange(0, i as int).push(
                outcomes@[i as int],
            ));
        }
        let mut segment = device_points(o, tracking);
        let ghost before = points@;
        let ghost seg = segment@;
        points.append(&mut segment);
        proof {
            lemma_batch_extend(before, seg, outcomes@.subrange(0, i as int), *o, tracking);
        }
        i += 1;
    }
    proof {
        assert(outcomes@.subrange(0, outcomes@.len() as int) =~= outcomes@);
        lemma_batch_size(points@, outcomes@, tracking);
    }
    points
}

proof fn lemma_batch_extend(
    ps: Seq<Point>,
    seg: Seq<Point>,
    os: Seq<Fetched>,
    o: Fetched,
    tracking: SunTracking,
)
    requires
        is_batch_of(ps, os, tracking),
        is_device_points(seg, o, tracking),
    ensures
        is_batch_of(ps + seg, os.push(o), tracking),
{
    let all = ps + seg;
    assert(os.push(o).drop_last() =~= os);
    assert(all.subrange(0, ps.len() as int) =~= ps);
    assert(all.subrange(ps.len() as int, all.len() as int) =~= seg);
}

/// A cycle's batch holds, for every device whose outcome yields a sample, one status
/// point and, when tracking is on, one sun point: failed devices add nothing.
pub proof fn lemma_batch_size(ps: Seq<Point>, os: Seq<Fetched>, tracking: SunTracking)
    requires
        is_batch_of(ps, os, tracking),
    ensures
        ps.len() == sample_count(os) * points_per_device(tracking),
        status_count(ps) == sample_count(os),
        sun_count(ps) == if tracking.enabled {
            sample_count(os)
        } else {
            0
        },
    decreases os.len(),
{
    if os.len() > 0 {
        let k = points_of_outcome(os.last(), tracking) as int;
        let head = ps.subrange(0, ps.len() - k);
        let tail = ps.subrange(ps.len() - k, ps.len() as int);
        lemma_batch_size(head, os.drop_last(), tracking);
        lemma_device_counts(tail, os.last(), tracking);
        lemma_counts_append(head, tail);
        assert(head + tail =~= ps);
        assert(ps.len() == sample_count(os) * points_per_device(tracking)) by (nonlinear_arith)
            requires
                ps.len() - k == sample_count(os.drop_last()) * points_per_device(tracking),
                k == (if yields_sample(os.last()) { points_per_device(tracking) } else { 0 }),
                sample_count(os) == sample_count(os.drop_last()) + if yields_sample(os.last()) {
                    1nat
                } else {
                    0nat
                },
        ;
    } else {
        assert(sample_count(os) == 0);
        assert(0 * points_per_device(tracking) == 0);
    }
}

} // verus!
