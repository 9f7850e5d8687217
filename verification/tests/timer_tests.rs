use tower_defense::timer::{TimerMode, TimerState};

const SECOND: u64 = 1_000_000_000;

#[test]
fn new_timer_starts_empty() {
    let t = TimerState::new(2 * SECOND, TimerMode::Repeating);
    assert_eq!(t.duration_nanos(), 2 * SECOND);
    assert_eq!(t.elapsed_nanos(), 0);
    assert_eq!(t.mode(), TimerMode::Repeating);
    assert!(!t.finished());
    assert!(!t.just_finished());
    assert_eq!(t.times_finished_this_tick(), 0);
}

#[test]
fn once_timer_runs_up_then_clamps() {
    let mut t = TimerState::new(SECOND, TimerMode::Once);
    t.tick(SECOND / 2);
    assert_eq!(t.elapsed_nanos(), SECOND / 2);
    assert!(!t.finished());
    assert!(!t.just_finished());
    t.tick(SECOND);
    assert_eq!(t.elapsed_nanos(), SECOND);
    assert!(t.finished());
    assert!(t.just_finished());
    assert_eq!(t.times_finished_this_tick(), 1);
    t.tick(SECOND / 2);
    assert_eq!(t.elapsed_nanos(), SECOND);
    assert!(t.finished());
    assert!(!t.just_finished());
    assert_eq!(t.times_finished_this_tick(), 0);
}

#[test]
fn once_timer_finishes_on_exact_end() {
    let mut t = TimerState::new(SECOND, TimerMode::Once);
    t.tick(SECOND);
    assert!(t.just_finished());
    assert_eq!(t.elapsed_nanos(), SECOND);
}

#[test]
fn repeating_timer_wraps_around() {
    let mut t = TimerState::new(SECOND, TimerMode::Repeating);
    t.tick(3 * SECOND / 2);
    assert_eq!(t.elapsed_nanos(), SECOND / 2);
    assert!(t.finished());
    assert!(t.just_finished());
    assert_eq!(t.times_finished_this_tick(), 1);
    t.tick(SECOND / 4);
    assert_eq!(t.elapsed_nanos(), 3 * SECOND / 4);
    assert!(!t.finished());
    assert!(!t.just_finished());
}

#[test]
fn repeating_timer_counts_every_period_of_a_tick() {
    let mut t = TimerState::new(SECOND, TimerMode::Repeating);
    t.tick(6 * SECOND);
    assert_eq!(t.times_finished_this_tick(), 6);
    assert_eq!(t.elapsed_nanos(), 0);
    t.tick(2 * SECOND);
    assert_eq!(t.times_finished_this_tick(), 2);
    t.tick(SECOND / 2);
    assert_eq!(t.times_finished_this_tick(), 0);
    assert_eq!(t.elapsed_nanos(), SECOND / 2);
}

#[test]
fn repeating_total_over_many_ticks() {
    // 7 ticks of 0.7 s on a 2 s timer: 4.9 s in all, two periods, 0.9 s left.
    let mut t = TimerState::new(2 * SECOND, TimerMode::Repeating);
    let mut fired: u32 = 0;
    for _ in 0..7 {
        t.tick(7 * SECOND / 10);
        fired += t.times_finished_this_tick();
    }
    assert_eq!(fired, 2);
    assert_eq!(t.elapsed_nanos(), 9 * SECOND / 10);
}

#[test]
fn once_timer_fires_once_over_many_ticks() {
    let mut t = TimerState::new(SECOND, TimerMode::Once);
    let mut fired: u32 = 0;
    for _ in 0..10 {
        t.tick(3 * SECOND / 10);
        fired += t.times_finished_this_tick();
    }
    assert_eq!(fired, 1);
    assert!(t.finished());
}

#[test]
fn can_tick_refuses_overflow() {
    let mut t = TimerState::new(u64::MAX, TimerMode::Once);
    assert!(t.can_tick(u64::MAX));
    t.tick(10);
    assert!(!t.can_tick(u64::MAX));
    assert!(t.can_tick(u64::MAX - 10));
}

#[test]
fn can_tick_refuses_too_many_periods() {
    let t = TimerState::new(1, TimerMode::Repeating);
    assert!(t.can_tick(0xffff_ffff));
    assert!(!t.can_tick(0x1_0000_0000));
    let once = TimerState::new(1, TimerMode::Once);
    assert!(once.can_tick(0x1_0000_0000));
}
