use shelly_influx::cycle::SunTracking;
use shelly_influx::scheduler::{
    Action, ConfigError, Event, Phase, Scheduler, CYCLE_INTERVAL_MILLIS, SINK_FAILURE_EXIT_CODE,
};

const NO_SUN: SunTracking = SunTracking { enabled: false, latitude: 0, longitude: 0 };

fn scheduler() -> Scheduler {
    Scheduler::new(vec!["http://10.0.0.1".to_string()], NO_SUN).unwrap()
}

#[test]
fn empty_device_list_is_refused() {
    assert!(matches!(Scheduler::new(vec![], NO_SUN), Err(ConfigError::NoDevices)));
}

#[test]
fn new_scheduler_keeps_configuration() {
    let s = Scheduler::new(vec!["a".to_string(), "b".to_string()], NO_SUN).unwrap();
    assert_eq!(s.devices, vec!["a".to_string(), "b".to_string()]);
    assert_eq!(s.phase, Phase::Idle);
    assert_eq!(s.tracking, NO_SUN);
}

#[test]
fn start_runs_a_cycle_then_sleeps() {
    let mut s = scheduler();
    assert_eq!(s.on_event(Event::Started), Action::RunCycle);
    assert_eq!(s.phase, Phase::Cycling);
    assert_eq!(s.on_event(Event::WriteSucceeded), Action::Sleep { millis: 5000 });
    assert_eq!(CYCLE_INTERVAL_MILLIS, 5000);
    assert_eq!(s.phase, Phase::Idle);
    assert_eq!(s.on_event(Event::IntervalElapsed), Action::RunCycle);
}

#[test]
fn sink_failure_halts_with_nonzero_status() {
    let mut s = scheduler();
    s.on_event(Event::Started);
    let a = s.on_event(Event::WriteFailed);
    assert_eq!(a, Action::Exit { code: SINK_FAILURE_EXIT_CODE });
    assert_ne!(SINK_FAILURE_EXIT_CODE, 0);
    assert_eq!(s.phase, Phase::Halted);
    for e in [Event::IntervalElapsed, Event::Started, Event::WriteSucceeded, Event::WriteFailed] {
        assert_eq!(s.on_event(e), Action::Exit { code: 1 });
    }
}

#[test]
fn stray_events_are_ignored() {
    let mut s = scheduler();
    assert_eq!(s.on_event(Event::WriteSucceeded), Action::Ignore);
    assert_eq!(s.phase, Phase::Idle);
    s.on_event(Event::Started);
    assert_eq!(s.on_event(Event::IntervalElapsed), Action::Ignore);
    assert_eq!(s.phase, Phase::Cycling);
}
