use bevy::time::{Timer, TimerMode};
use entity_systems::common::run_on_timer::{tick_run_on_timer, RunOnTimer};
use std::time::Duration;

fn every(millis: u64) -> RunOnTimer {
    RunOnTimer::new(Timer::new(Duration::from_millis(millis), TimerMode::Repeating))
}

#[test]
fn new_keeps_the_timer() {
    let trigger = every(100);
    assert_eq!(trigger.timer.duration(), Duration::from_millis(100));
    assert_eq!(trigger.timer.mode(), TimerMode::Repeating);
    assert_eq!(trigger.timer.elapsed(), Duration::ZERO);
}

#[test]
fn fires_on_the_frame_after_the_period_completes() {
    let mut trigger = every(100);
    assert!(!tick_run_on_timer(&mut trigger, Duration::from_millis(100)));
    assert!(tick_run_on_timer(&mut trigger, Duration::from_millis(10)));
    assert!(!tick_run_on_timer(&mut trigger, Duration::from_millis(10)));
}

#[test]
fn fires_once_for_each_whole_period() {
    // 3 s in frames of 70 ms, the period is 300 ms
    let mut trigger = every(300);
    let mut fired = 0u64;
    let mut elapsed = 0u64;
    for _ in 0..43 {
        if tick_run_on_timer(&mut trigger, Duration::from_millis(70)) {
            fired += 1;
        }
        elapsed += 70;
        let owed = if trigger.timer.just_finished() { 1 } else { 0 };
        assert_eq!(fired + owed, elapsed / 300);
        assert_eq!(trigger.timer.elapsed(), Duration::from_millis(elapsed % 300));
    }
    assert_eq!(elapsed, 3010);
    // the tenth period completed in the last frame: its firing is still owed
    assert_eq!(fired, 9);
    assert!(tick_run_on_timer(&mut trigger, Duration::from_millis(70)));
}

#[test]
fn frames_as_long_as_the_period_fire_every_frame_but_the_first() {
    let mut trigger = every(50);
    let mut fired = 0;
    for _ in 0..8 {
        if tick_run_on_timer(&mut trigger, Duration::from_millis(50)) {
            fired += 1;
        }
    }
    assert_eq!(fired, 7);
    assert!(trigger.timer.just_finished());
}

#[test]
fn a_once_timer_fires_once() {
    let mut trigger = RunOnTimer::new(Timer::new(Duration::from_millis(50), TimerMode::Once));
    let mut fired = 0;
    for _ in 0..8 {
        if tick_run_on_timer(&mut trigger, Duration::from_millis(30)) {
            fired += 1;
        }
    }
    assert_eq!(fired, 1);
}

#[test]
fn a_completed_period_has_fired_by_the_end_of_the_next_frame() {
    // frames of 40 ms, the period is 100 ms; then one more frame of any length
    for extra in [0u64, 1, 40, 100] {
        let mut trigger = every(100);
        let mut fired = 0u64;
        let mut elapsed = 0u64;
        for _ in 0..23 {
            if tick_run_on_timer(&mut trigger, Duration::from_millis(40)) {
                fired += 1;
            }
            elapsed += 40;
            assert!(fired <= elapsed / 100);
        }
        if tick_run_on_timer(&mut trigger, Duration::from_millis(extra)) {
            fired += 1;
        }
        assert_eq!(fired, elapsed / 100);
    }
}
