use engine2d::time::Time;
use std::time::Duration;

#[test]
fn new_clock_has_zero_delta() {
    let time = Time::new();
    assert_eq!(time.delta_secs(), 0);
    assert_eq!(time.delta_subsec_nanos(), 0);
}

#[test]
fn default_clock_has_zero_delta() {
    let time = Time::default();
    assert_eq!(time.delta_secs(), 0);
    assert_eq!(time.delta_subsec_nanos(), 0);
    assert_eq!(time, Time::new());
}

#[test]
fn advance_by_stores_the_delta() {
    let mut time = Time::new();
    time.advance_by(Duration::new(3, 250_000_000));
    assert_eq!(time.delta_secs(), 3);
    assert_eq!(time.delta_subsec_nanos(), 250_000_000);
}

#[test]
fn advance_by_replaces_and_does_not_add() {
    let mut time = Time::new();
    time.advance_by(Duration::from_millis(1500));
    time.advance_by(Duration::from_millis(16));
    assert_eq!(time.delta_secs(), 0);
    assert_eq!(time.delta_subsec_nanos(), 16_000_000);
}

#[test]
fn advance_by_zero_gives_the_new_clock() {
    let mut time = Time::new();
    time.advance_by(Duration::from_secs(7));
    time.advance_by(Duration::from_secs(0));
    assert_eq!(time, Time::new());
}

#[test]
fn advance_by_keeps_the_largest_delta() {
    let mut time = Time::new();
    time.advance_by(Duration::new(u64::MAX, 999_999_999));
    assert_eq!(time.delta_secs(), u64::MAX);
    assert_eq!(time.delta_subsec_nanos(), 999_999_999);
}

#[test]
fn the_stored_delta_gives_the_seconds_back() {
    let mut time = Time::new();
    time.advance_by(Duration::from_millis(500));
    let seconds = Duration::new(time.delta_secs(), time.delta_subsec_nanos()).as_secs_f32();
    assert_eq!(seconds, 0.5);
}
