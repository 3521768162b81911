use flight_sequencer::clock::{Clock, Timestamp};
use flight_sequencer::data_format::Seconds;

#[test]
fn clock_shows_where_it_was_started() {
    let clock = Clock::new(Timestamp(250));
    assert_eq!(clock.now(), Timestamp(250));
    assert_eq!(clock.elapsed(Timestamp(250)), Seconds(0));
}

#[test]
fn elapsed_is_the_difference_of_instants() {
    let clock = Clock::new(Timestamp(7400));
    assert_eq!(clock.elapsed(Timestamp(2500)), Seconds(4900));
    assert_eq!(Timestamp(2500).elapsed(&clock), Seconds(4900));
    assert_eq!(Timestamp(0).elapsed(&clock), Seconds(7400));
}

#[test]
fn elapsed_is_never_negative() {
    let clock = Clock::new(Timestamp(100));
    assert_eq!(clock.elapsed(Timestamp(101)), Seconds(0));
    assert_eq!(Timestamp(u64::MAX).elapsed(&clock), Seconds(0));
}

#[test]
fn advance_moves_forward_by_the_duration() {
    let mut clock = Clock::new(Timestamp(1000));
    clock.advance(Seconds(500));
    assert_eq!(clock.now(), Timestamp(1500));
    clock.advance(Seconds(0));
    assert_eq!(clock.now(), Timestamp(1500));
}

#[test]
fn advance_stops_at_the_end_of_the_range() {
    let mut clock = Clock::new(Timestamp(u64::MAX - 5));
    clock.advance(Seconds(10));
    assert_eq!(clock.now(), Timestamp(u64::MAX));
    clock.advance(Seconds(1));
    assert_eq!(clock.now(), Timestamp(u64::MAX));
}

#[test]
fn observe_follows_a_timer_forward_only() {
    let mut clock = Clock::new(Timestamp(1000));
    clock.observe(Timestamp(1200));
    assert_eq!(clock.now(), Timestamp(1200));
    clock.observe(Timestamp(1100));
    assert_eq!(clock.now(), Timestamp(1200));
    clock.observe(Timestamp(1200));
    assert_eq!(clock.now(), Timestamp(1200));
    clock.observe(Timestamp(1201));
    assert_eq!(clock.now(), Timestamp(1201));
}

#[test]
fn elapsed_grows_with_the_clock() {
    let mut clock = Clock::new(Timestamp(0));
    let since = Timestamp(300);
    let mut last = clock.elapsed(since);
    for reading in [100u64, 300, 250, 900, 900, 4000] {
        clock.observe(Timestamp(reading));
        let elapsed = clock.elapsed(since);
        assert!(elapsed.has_reached(last));
        last = elapsed;
    }
    assert_eq!(last, Seconds(3700));
}
