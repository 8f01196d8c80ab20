use bevy::time::{Timer as EngineTimer, TimerMode};
use reactive_effects::delay_component::{DelayEvent, DelayInsert, DelayObserver, DelayRemove, Entity};
use reactive_effects::timer::Timer;
use std::time::Duration;

const MS: u128 = 1_000_000;

#[test]
fn new_timer_has_not_fired() {
    let timer = Timer::new(50 * MS);
    assert_eq!(timer.duration, 50 * MS);
    assert_eq!(timer.elapsed, 0);
    assert!(!timer.is_finished());
    assert!(!timer.just_finished());
    assert_eq!(timer.remaining(), 50 * MS);
}

#[test]
fn tick_reduces_what_is_left() {
    let mut timer = Timer::new(50 * MS);
    timer.tick(20 * MS);
    assert_eq!(timer.remaining(), 30 * MS);
    assert_eq!(timer.elapsed, 20 * MS);
    assert!(!timer.just_finished());
    assert!(!timer.is_finished());
}

#[test]
fn what_is_left_is_clamped_at_zero() {
    let mut timer = Timer::new(50 * MS);
    timer.tick(20 * MS);
    timer.tick(40 * MS);
    assert_eq!(timer.remaining(), 0);
    assert_eq!(timer.elapsed, 50 * MS);
    assert!(timer.just_finished());
    assert!(timer.is_finished());
}

#[test]
fn fires_on_the_tick_that_reaches_the_length_exactly() {
    let mut timer = Timer::new(50 * MS);
    timer.tick(49 * MS);
    assert!(!timer.just_finished());
    timer.tick(MS);
    assert!(timer.just_finished());
}

#[test]
fn fires_exactly_once_over_a_run() {
    let mut timer = Timer::new(50 * MS);
    let mut fired = Vec::new();
    for delta in [20 * MS, 40 * MS, 10 * MS, 100 * MS, 0] {
        timer.tick(delta);
        fired.push(timer.just_finished());
    }
    assert_eq!(fired, vec![false, true, false, false, false]);
    assert!(timer.is_finished());
    assert_eq!(timer.remaining(), 0);
}

#[test]
fn never_fires_before_the_length_is_reached() {
    let mut timer = Timer::new(50 * MS);
    for _ in 0..49 {
        timer.tick(MS);
        assert!(!timer.just_finished());
        assert!(!timer.is_finished());
    }
    assert_eq!(timer.remaining(), MS);
}

#[test]
fn zero_length_fires_on_the_next_tick() {
    let mut timer = Timer::new(0);
    assert!(!timer.just_finished());
    assert!(!timer.is_finished());
    timer.tick(0);
    assert!(timer.just_finished());
    timer.tick(0);
    assert!(!timer.just_finished());
    assert!(timer.is_finished());
}

#[test]
fn zero_ticks_do_not_move_a_running_timer() {
    let mut timer = Timer::new(5);
    timer.tick(0);
    timer.tick(0);
    assert_eq!(timer.remaining(), 5);
    assert!(!timer.is_finished());
}

#[test]
fn the_longest_tick_does_not_overflow() {
    let mut timer = Timer::new(u128::MAX);
    timer.tick(u128::MAX - 1);
    assert_eq!(timer.remaining(), 1);
    assert!(!timer.is_finished());
    timer.tick(u128::MAX);
    assert!(timer.just_finished());
    assert_eq!(timer.elapsed, u128::MAX);
}

fn agrees_with_engine(length: u64, ticks: &[u64]) {
    let mut ours = Timer::new(length as u128);
    let mut theirs = EngineTimer::new(Duration::from_nanos(length), TimerMode::Once);
    for delta in ticks {
        ours.tick(*delta as u128);
        theirs.tick(Duration::from_nanos(*delta));
        assert_eq!(ours.just_finished(), theirs.just_finished());
        assert_eq!(ours.is_finished(), theirs.is_finished());
        assert_eq!(ours.elapsed, theirs.elapsed().as_nanos());
        assert_eq!(ours.remaining(), theirs.remaining().as_nanos());
        assert_eq!(ours.duration, theirs.duration().as_nanos());
    }
}

#[test]
fn agrees_with_the_engine_timer_on_a_short_run() {
    agrees_with_engine(50_000_000, &[20_000_000, 40_000_000, 5, 0, 70_000_000]);
}

#[test]
fn agrees_with_the_engine_timer_on_zero_length() {
    agrees_with_engine(0, &[0, 0, 3]);
}

#[test]
fn agrees_with_the_engine_timer_on_many_runs() {
    let mut seed: u64 = 0x2545_f491_4f6c_dd1d;
    for _ in 0..200 {
        let mut ticks = Vec::new();
        for _ in 0..12 {
            seed ^= seed << 13;
            seed ^= seed >> 7;
            seed ^= seed << 17;
            ticks.push(seed % 40);
        }
        seed ^= seed << 13;
        seed ^= seed >> 7;
        seed ^= seed << 17;
        agrees_with_engine(seed % 200, &ticks);
    }
}

#[test]
fn observer_reports_the_event_once() {
    let mut observer = DelayObserver::new(30);
    assert_eq!(observer.0, Timer::new(30));
    assert_eq!(observer.tick(Entity(7), 10), None);
    assert_eq!(observer.tick(Entity(7), 20), Some(DelayEvent(Entity(7))));
    assert_eq!(observer.tick(Entity(7), 20), None);
    assert_eq!(DelayEvent(Entity(7)).event_target(), Entity(7));
}

#[test]
fn wrappers_install_a_copy_of_their_timer() {
    let attach = DelayInsert::new(25, "leaf");
    assert_eq!(attach.timer, Timer::new(25));
    assert_eq!(attach.component, "leaf");
    assert_eq!(attach.on_add(), DelayObserver::new(25));
    let detach = DelayRemove::new(0, 3u8);
    assert_eq!(detach.timer, Timer::new(0));
    assert_eq!(detach.component, 3);
    assert_eq!(detach.on_add(), DelayObserver::new(0));
}

#[test]
fn wrappers_carry_payloads_that_are_not_copied() {
    let attach = DelayInsert::new(25, String::from("leaf"));
    assert_eq!(attach.on_add(), DelayObserver::new(25));
    assert_eq!(attach.component.clone(), "leaf");
    let again = attach.clone();
    assert_eq!(again.timer, attach.timer);
    let detach: DelayRemove<std::marker::PhantomData<String>> =
        DelayRemove::new(7, std::marker::PhantomData);
    assert_eq!(detach.on_add(), DelayObserver::new(7));
    assert_eq!(detach.clone().timer, Timer::new(7));
}
