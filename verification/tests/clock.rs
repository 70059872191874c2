use distributed_cicd::clock::LogicalClock;

#[test]
fn new_clock_starts_at_zero() {
    let clock = LogicalClock::new();
    assert_eq!(clock.get_time(), 0);
}

#[test]
fn increment_moves_by_one() {
    let mut clock = LogicalClock::new();
    clock.increment();
    assert_eq!(clock.get_time(), 1);
    clock.increment();
    assert_eq!(clock.get_time(), 2);
}

#[test]
fn clock_counts_increments() {
    let mut clock = LogicalClock::new();
    let mut previous = clock.get_time();
    for _ in 0..100 {
        clock.increment();
        assert!(clock.get_time() > previous);
        previous = clock.get_time();
    }
    assert_eq!(clock.get_time(), 100);
}

#[test]
fn increment_just_below_the_limit() {
    let mut clock = LogicalClock { time: u64::MAX - 1 };
    clock.increment();
    assert_eq!(clock.get_time(), u64::MAX);
}

#[test]
fn serialized_build_steps_see_consecutive_times() {
    let mut s = distributed_cicd::dispatch::AppState::new();
    s.clock.time = 41;
    let times: Vec<u64> = (0..5).map(|_| s.begin_build_task()).collect();
    assert_eq!(times, vec![42, 43, 44, 45, 46]);
    assert_eq!(s.clock.get_time(), 46);
}
