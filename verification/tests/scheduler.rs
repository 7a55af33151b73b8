use arena_sim::spawn_scheduler::SpawnScheduler;
use arena_sim::units::SPAWN_INTERVAL;

const MS: u64 = 1_000_000;

/// Runs the ticks and returns how many of them fired.
fn run(s: &mut SpawnScheduler, deltas: &[u64]) -> u64 {
    let mut fired = 0;
    for d in deltas {
        if s.tick(*d) {
            fired += 1;
        }
    }
    fired
}

#[test]
fn default_interval_is_half_a_second() {
    assert_eq!(SPAWN_INTERVAL, 500 * MS);
}

#[test]
fn new_scheduler_has_gathered_nothing() {
    let s = SpawnScheduler::new(500 * MS);
    assert_eq!(s, SpawnScheduler { elapsed: 0, interval: 500 * MS });
}

#[test]
fn two_ticks_of_three_tenths_fire_once() {
    let mut s = SpawnScheduler::new(500 * MS);
    assert!(!s.tick(300 * MS));
    assert_eq!(s.elapsed, 300 * MS);
    assert!(s.tick(300 * MS));
    assert_eq!(s.elapsed, 100 * MS);
    assert!(s.elapsed <= 100 * MS);
}

#[test]
fn fires_when_the_interval_is_reached_exactly() {
    let mut s = SpawnScheduler::new(500 * MS);
    assert!(!s.tick(499 * MS));
    assert!(s.tick(MS));
    assert_eq!(s.elapsed, 0);
}

#[test]
fn is_due_agrees_with_tick_and_does_not_tick() {
    let mut s = SpawnScheduler::new(500 * MS);
    for d in [0, 100 * MS, 399 * MS, 1, 500 * MS, 2 * MS, u64::MAX] {
        let before = s;
        let due = s.is_due(d);
        assert_eq!(s, before);
        assert_eq!(s.tick(d), due);
    }
}

#[test]
fn a_long_delta_fires_once_and_carries_the_rest() {
    let mut s = SpawnScheduler::new(500 * MS);
    assert!(s.tick(1250 * MS));
    assert_eq!(s.elapsed, 750 * MS);
    assert!(s.tick(0));
    assert_eq!(s.elapsed, 250 * MS);
    assert!(!s.tick(0));
    assert_eq!(s.elapsed, 250 * MS);
}

#[test]
fn firings_and_carry_add_up_to_the_time_gone_by() {
    let deltas = [16 * MS, 17 * MS, 700 * MS, 0, 33 * MS, 1200 * MS, 5, 499 * MS, 1, 250 * MS];
    let mut s = SpawnScheduler::new(500 * MS);
    let mut total = 0;
    let mut fired = 0;
    for d in deltas {
        if s.tick(d) {
            fired += 1;
        }
        total += d;
        assert_eq!(fired * s.interval + s.elapsed, total);
    }
    assert_eq!(fired, 5);
}

#[test]
fn short_deltas_fire_once_per_full_interval() {
    let mut s = SpawnScheduler::new(500 * MS);
    let mut total = 0;
    let mut fired = 0;
    for k in 0..1000u64 {
        let d = (k * 7919) % (500 * MS + 1);
        if s.tick(d) {
            fired += 1;
        }
        total += d;
        assert!(s.elapsed < s.interval);
        assert_eq!(fired, total / s.interval);
        assert_eq!(s.elapsed, total % s.interval);
    }
}

#[test]
fn sixty_frames_a_second_spawn_twice_a_second() {
    let mut s = SpawnScheduler::new(SPAWN_INTERVAL);
    let frame = 1_000_000_000 / 60;
    let deltas = vec![frame; 600];
    assert_eq!(run(&mut s, &deltas), 600 * frame / SPAWN_INTERVAL);
}

#[test]
fn zero_interval_fires_on_every_tick() {
    let mut s = SpawnScheduler::new(0);
    assert!(s.tick(0));
    assert!(s.tick(7));
    assert!(s.tick(0));
    assert_eq!(s.elapsed, 7);
}

#[test]
fn zero_delta_does_not_fire_before_the_interval() {
    let mut s = SpawnScheduler::new(10);
    assert_eq!(run(&mut s, &[0, 0, 0, 9, 0]), 0);
    assert_eq!(s.elapsed, 9);
    assert!(s.tick(1));
}

#[test]
fn carried_time_stops_at_the_largest_value() {
    let mut s = SpawnScheduler { elapsed: u64::MAX - 5, interval: 3 };
    assert!(s.tick(100));
    assert_eq!(s.elapsed, u64::MAX);
    assert_eq!(s.interval, 3);
    let mut t = SpawnScheduler { elapsed: u64::MAX - 5, interval: 100 };
    assert!(t.tick(100));
    assert_eq!(t.elapsed, u64::MAX - 5);
    let mut u = SpawnScheduler { elapsed: 5, interval: u64::MAX };
    assert!(!u.tick(u64::MAX - 6));
    assert_eq!(u.elapsed, u64::MAX - 1);
    assert!(u.tick(1));
    assert_eq!(u.elapsed, 0);
}

#[test]
fn tick_never_changes_the_interval() {
    let mut s = SpawnScheduler::new(123);
    run(&mut s, &[1, 200, 0, 5000, 122]);
    assert_eq!(s.interval, 123);
}
