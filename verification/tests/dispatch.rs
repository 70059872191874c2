use distributed_cicd::clock::LogicalClock;
use distributed_cicd::dispatch::AppState;

#[test]
fn initial_state() {
    let s = AppState::new();
    assert_eq!(s.state, 1);
    assert_eq!(s.clock.get_time(), 0);
}

#[test]
fn two_workers_alternate_starting_with_the_first() {
    let mut s = AppState::new();
    assert_eq!(s.next_worker(2), 0);
    assert_eq!(s.state, 2);
    assert_eq!(s.next_worker(2), 1);
    assert_eq!(s.state, 1);
    let picks: Vec<usize> = (0..6).map(|_| s.next_worker(2)).collect();
    assert_eq!(picks, vec![0, 1, 0, 1, 0, 1]);
    assert_eq!(s.state, 1);
}

#[test]
fn position_two_picks_the_second_worker() {
    let mut s = AppState { state: 2, clock: LogicalClock::new() };
    assert_eq!(s.next_worker(2), 1);
    assert_eq!(s.state, 1);
}

#[test]
fn three_workers_each_picked_once_per_round() {
    let mut s = AppState::new();
    let mut counts = [0usize; 3];
    for _ in 0..30 {
        counts[s.next_worker(3)] += 1;
        assert!(1 <= s.state && s.state <= 3);
    }
    assert_eq!(counts, [10, 10, 10]);
}

#[test]
fn one_worker_is_always_picked() {
    let mut s = AppState::new();
    for _ in 0..5 {
        assert_eq!(s.next_worker(1), 0);
        assert_eq!(s.state, 1);
    }
}

#[test]
fn last_position_of_the_largest_pool_wraps() {
    let mut s = AppState { state: 255, clock: LogicalClock::new() };
    assert_eq!(s.next_worker(255), 254);
    assert_eq!(s.state, 1);
}

#[test]
fn build_task_ticks_the_clock() {
    let mut s = AppState::new();
    assert_eq!(s.begin_build_task(), 1);
    assert_eq!(s.begin_build_task(), 2);
    assert_eq!(s.begin_build_task(), 3);
    assert_eq!(s.state, 1);
}

#[test]
fn build_task2_picks_and_ticks() {
    let mut s = AppState::new();
    assert_eq!(s.begin_build_task2(2), (0, 1));
    assert_eq!(s.begin_build_task2(2), (1, 2));
    assert_eq!(s.begin_build_task2(2), (0, 3));
    assert_eq!(s.clock.get_time(), 3);
}

#[test]
fn consecutive_picks_differ_and_balance() {
    let mut s = AppState::new();
    let mut counts = [0usize; 2];
    let mut last = None;
    for _ in 0..7 {
        let w = s.next_worker(2);
        assert_ne!(Some(w), last);
        last = Some(w);
        counts[w] += 1;
    }
    assert_eq!(counts, [4, 3]);
}
