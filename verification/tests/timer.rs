use incremental_affix::timer::{Timer, TimerMode};

#[test]
fn timer_that_repeats_starts_over_with_what_went_beyond() {
    let mut timer = Timer::new(5_000_000_000, TimerMode::Repeating);
    timer.tick(3_000_000_000);
    assert!(!timer.is_just_finished());
    assert_eq!(timer.elapsed_nanos(), 3_000_000_000);
    assert_eq!(timer.remaining(), 2_000_000_000);
    timer.tick(3_000_000_000);
    assert!(timer.is_just_finished());
    assert!(timer.is_finished());
    assert_eq!(timer.elapsed_nanos(), 1_000_000_000);
    timer.tick(1);
    assert!(!timer.is_just_finished());
    assert!(!timer.is_finished());
}

#[test]
fn timer_runs_out_exactly_at_its_length() {
    let mut timer = Timer::new(1_000, TimerMode::Once);
    timer.tick(999);
    assert!(!timer.is_finished());
    timer.tick(1);
    assert!(timer.is_finished());
    assert!(timer.is_just_finished());
    assert_eq!(timer.elapsed_nanos(), 1_000);
    assert_eq!(timer.remaining(), 0);
}

#[test]
fn timer_that_runs_once_stays_run_out() {
    let mut timer = Timer::new(10, TimerMode::Once);
    timer.tick(25);
    assert!(timer.is_just_finished());
    assert_eq!(timer.elapsed_nanos(), 10);
    timer.tick(25);
    assert!(timer.is_finished());
    assert!(!timer.is_just_finished());
    assert_eq!(timer.elapsed_nanos(), 10);
}

#[test]
fn held_timer_does_not_run() {
    let mut timer = Timer::new(10, TimerMode::Repeating);
    timer.pause();
    assert!(timer.is_paused());
    timer.tick(100);
    assert_eq!(timer.elapsed_nanos(), 0);
    assert!(!timer.is_just_finished());
    timer.unpause();
    timer.tick(4);
    assert_eq!(timer.elapsed_nanos(), 4);
}

#[test]
fn timer_reset_keeps_the_hold() {
    let mut timer = Timer::new(10, TimerMode::Once);
    timer.tick(20);
    timer.pause();
    timer.reset();
    assert!(timer.is_paused());
    assert!(!timer.is_finished());
    assert_eq!(timer.elapsed_nanos(), 0);
    assert_eq!(timer.duration_nanos(), 10);
}

#[test]
fn timer_without_length_runs_out_at_every_tick() {
    let mut timer = Timer::new(0, TimerMode::Repeating);
    timer.tick(7);
    assert!(timer.is_just_finished());
    assert_eq!(timer.elapsed_nanos(), 0);
    timer.tick(0);
    assert!(timer.is_just_finished());
}

#[test]
fn timer_counts_no_further_than_it_can() {
    let mut timer = Timer::new(u64::MAX, TimerMode::Repeating);
    timer.tick(u64::MAX - 1);
    assert!(!timer.is_just_finished());
    timer.tick(u64::MAX);
    assert!(timer.is_just_finished());
    assert_eq!(timer.elapsed_nanos(), 0);
}
