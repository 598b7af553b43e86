use shelly_influx::clock::instant_at;
use shelly_influx::cycle::{
    build_batch, device_points, screen_response, FetchOutcome, Fetched, Point, SunTracking,
};
use shelly_influx::datapoint::{FetchError, ShellyDatapoint};
use shelly_influx::response::{
    ActionStats, CloudStats, Meter, MqttStats, Relay, ShellyResponse, TempStats, Update, WifiStats,
};

fn relay(ison: bool) -> Relay {
    Relay {
        ison,
        has_timer: false,
        timer_started: 0,
        timer_duration: 0,
        timer_remaining: 0,
        overpower: false,
        source: "http".to_string(),
    }
}

fn meter(power: f32, total: f32) -> Meter {
    Meter {
        power: power.to_bits(),
        overpower: 0.0f32.to_bits(),
        is_valid: true,
        timestamp: 1_700_000_000,
        counters: vec![1.5f32.to_bits(), 2.5f32.to_bits()],
        total: total.to_bits(),
    }
}

fn response(ip: &str, serial: u64, relays: Vec<Relay>, meters: Vec<Meter>) -> ShellyResponse {
    ShellyResponse {
        wifi_sta: WifiStats {
            connected: true,
            rssi: -60,
            ssid: "home".to_string(),
            ip: ip.to_string(),
        },
        cloud: CloudStats { enabled: false, connected: false },
        mqtt: MqttStats { connected: false },
        time: "12:00".to_string(),
        unixtime: 1_700_000_000,
        serial,
        has_update: false,
        mac: "AABBCCDDEEFF".to_string(),
        cfg_changed_cnt: 3,
        actions_stats: ActionStats { skipped: 0 },
        relays,
        meters,
        temperature: 41.25f32.to_bits(),
        overtemperature: false,
        tmp: TempStats { t_c: 41.25f32.to_bits(), t_f: 106.25f32.to_bits(), is_valid: true },
        update: Update {
            status: "idle".to_string(),
            has_update: false,
            new_version: "1.0".to_string(),
            old_version: "1.0".to_string(),
        },
        ram_total: 50000,
        ram_free: 38000,
        fs_size: 230000,
        fs_free: 160000,
        uptime: 3600,
    }
}

fn good(ip: &str) -> FetchOutcome {
    Ok(response(ip, 4711, vec![relay(true)], vec![meter(120.5, 4500.2)]))
}

// 2024-03-20 12:00:00.250 UTC
const NOON_SECS: i64 = 1_710_936_000;

fn at_noon(outcome: FetchOutcome) -> Fetched {
    Fetched { outcome, unix_secs: NOON_SECS, subsec_nanos: 250_000_000 }
}

fn all_at_noon(outcomes: Vec<FetchOutcome>) -> Vec<Fetched> {
    outcomes.into_iter().map(at_noon).collect()
}

const NO_SUN: SunTracking = SunTracking { enabled: false, latitude: 0, longitude: 0 };

fn sun_at(lat: f32, long: f32) -> SunTracking {
    SunTracking { enabled: true, latitude: lat.to_bits(), longitude: long.to_bits() }
}

fn status(p: &Point) -> &ShellyDatapoint {
    match p {
        Point::Status(s) => s,
        Point::Sun(_) => panic!("expected a status point"),
    }
}

#[test]
fn sample_copies_readings_and_tags() {
    let resp = response("10.0.0.7", 4711, vec![relay(true), relay(false)], vec![meter(120.5, 4500.2)]);
    let dp = ShellyDatapoint::from_response(&resp, shelly_influx::clock::Instant {
        unix_millis: 5,
        civil: shelly_influx::clock::CivilTime {
            year: 2024,
            month: 3,
            day: 20,
            hour: 12,
            minute: 0,
            second: 0,
        },
    })
    .unwrap();
    assert_eq!(dp.ip, "10.0.0.7");
    assert_eq!(dp.mac, "AABBCCDDEEFF");
    assert_eq!(dp.serial, "4711");
    assert!(dp.ison);
    assert_eq!(f32::from_bits(dp.power), 120.5);
    assert_eq!(f32::from_bits(dp.power_total), 4500.2);
    assert_eq!(f32::from_bits(dp.temperature), 41.25);
    assert_eq!(dp.uptime, 3600);
    assert_eq!(dp.ram_free, 38000);
    assert_eq!(dp.fs_free, 160000);
    assert_eq!(dp.time.unix_millis, 5);
}

#[test]
fn empty_relay_list_is_invalid_payload() {
    let resp = response("10.0.0.7", 1, vec![], vec![meter(1.0, 2.0)]);
    let now = shelly_influx::clock::Instant {
        unix_millis: 0,
        civil: shelly_influx::clock::CivilTime { year: 1970, month: 1, day: 1, hour: 0, minute: 0, second: 0 },
    };
    assert_eq!(ShellyDatapoint::from_response(&resp, now).unwrap_err(), FetchError::InvalidPayload);
    assert!(device_points(&at_noon(Ok(resp.clone())), NO_SUN).is_empty());
    assert!(matches!(screen_response(resp), Err(FetchError::InvalidPayload)));
}

#[test]
fn empty_meter_list_is_invalid_payload() {
    let resp = response("10.0.0.7", 1, vec![relay(false)], vec![]);
    assert!(matches!(screen_response(resp.clone()), Err(FetchError::InvalidPayload)));
    let batch = build_batch(&all_at_noon(vec![Ok(resp), good("10.0.0.8")]), NO_SUN);
    assert_eq!(batch.len(), 1);
    assert_eq!(status(&batch[0]).ip, "10.0.0.8");
}

#[test]
fn failed_devices_add_no_points() {
    let outcomes = vec![
        good("10.0.0.1"),
        Err(FetchError::Unreachable),
        good("10.0.0.3"),
        Err(FetchError::InvalidPayload),
        good("10.0.0.5"),
    ];
    let batch = build_batch(&all_at_noon(outcomes), NO_SUN);
    assert_eq!(batch.len(), 3);
    let ips: Vec<&str> = batch.iter().map(|p| status(p).ip.as_str()).collect();
    assert_eq!(ips, vec!["10.0.0.1", "10.0.0.3", "10.0.0.5"]);
}

#[test]
fn tracking_adds_one_sun_point_per_sample() {
    let outcomes = vec![good("10.0.0.1"), Err(FetchError::Unreachable), good("10.0.0.3")];
    let batch = build_batch(&all_at_noon(outcomes), sun_at(47.5, 8.25));
    assert_eq!(batch.len(), 4);
    for pair in batch.chunks(2) {
        let s = status(&pair[0]);
        match &pair[1] {
            Point::Sun(req) => {
                assert_eq!(req.time, s.time);
                assert_eq!(f32::from_bits(req.latitude), 47.5);
                assert_eq!(f32::from_bits(req.longitude), 8.25);
                assert_eq!(
                    req.j2000_seconds,
                    shelly_influx::clock::seconds_since_j2000(&req.time.civil)
                );
            }
            Point::Status(_) => panic!("expected a sun point"),
        }
    }
}

#[test]
fn all_devices_failing_gives_empty_batch() {
    let outcomes = vec![Err(FetchError::Unreachable), Err(FetchError::InvalidPayload)];
    assert!(build_batch(&all_at_noon(outcomes), sun_at(0.0, 0.0)).is_empty());
}

#[test]
fn two_devices_one_times_out() {
    let outcomes = vec![good("192.168.1.20"), Err(FetchError::Unreachable)];
    let batch = build_batch(&all_at_noon(outcomes), NO_SUN);
    assert_eq!(batch.len(), 1);
    let a = status(&batch[0]);
    assert_eq!(a.ip, "192.168.1.20");
    assert_eq!(a.mac, "AABBCCDDEEFF");
    assert_eq!(a.serial, "4711");
    assert!(a.ison);
    assert_eq!(f32::from_bits(a.power), 120.5);
    assert_eq!(f32::from_bits(a.power_total), 4500.2);
    assert_eq!(a.time.unix_millis, NOON_SECS * 1000 + 250);
    assert_eq!(a.time.civil.year, 2024);
}

#[test]
fn complete_response_passes_screen() {
    let resp = response("10.0.0.9", 9, vec![relay(false)], vec![meter(3.0, 4.0)]);
    let screened = screen_response(resp).unwrap();
    assert_eq!(screened.wifi_sta.ip, "10.0.0.9");
    assert_eq!(screened.serial, 9);
}

#[test]
fn sample_time_is_read_from_unix_time() {
    let t = instant_at(NOON_SECS, 250_000_000).unwrap();
    assert_eq!(t.unix_millis, 1_710_936_000_250);
    assert_eq!(
        (t.civil.year, t.civil.month, t.civil.day, t.civil.hour, t.civil.minute, t.civil.second),
        (2024, 3, 20, 12, 0, 0)
    );
    let epoch = instant_at(0, 0).unwrap();
    assert_eq!((epoch.civil.year, epoch.civil.month, epoch.civil.day), (1970, 1, 1));
    assert_eq!(epoch.civil.hour, 0);
}

#[test]
fn unreadable_times_are_refused() {
    assert!(instant_at(-1, 0).is_none());
    assert!(instant_at(0, 1_000_000_000).is_none());
    assert!(instant_at(8_000_000_000_001, 0).is_none());
    assert!(instant_at(8_000_000_000_000, 999_999_999).is_some());
}

#[test]
fn sample_with_unreadable_time_adds_no_points() {
    let f = Fetched { outcome: good("10.0.0.1"), unix_secs: -5, subsec_nanos: 0 };
    assert!(build_batch(&vec![f], sun_at(1.0, 2.0)).is_empty());
}
