//! Timing: granularity classification, the frame-period formula, the pacer
//! decision, and the BREAK/MAB hold times.

use open_dmx::timing::{
    break_hold_micros, classify_granularity, frame_time, mab_hold_micros, pace_step, PaceAction,
    TimerGranularity,
};
use open_dmx::{DMX_BREAK, DMX_MAB};
use std::time::Instant;

#[test]
fn granularity_defaults_to_unknown() {
    assert_eq!(TimerGranularity::default(), TimerGranularity::Unknown);
}

#[test]
fn settle_time_classifies_the_timer() {
    assert_eq!(classify_granularity(0), TimerGranularity::Good);
    assert_eq!(classify_granularity(1), TimerGranularity::Good);
    assert_eq!(classify_granularity(3), TimerGranularity::Good);
    assert_eq!(classify_granularity(4), TimerGranularity::Bad);
    assert_eq!(classify_granularity(1000), TimerGranularity::Bad);
}

#[test]
fn frame_time_default_knob_gives_25_ms() {
    assert_eq!(frame_time(40000), 25);
}

#[test]
fn frame_time_rounds_half_up() {
    assert_eq!(frame_time(1000), 1000); // 1000/1 rounds to 1000
    assert_eq!(frame_time(1999), 1000); // quotient still 1
    assert_eq!(frame_time(2000), 500); // 500.5 rounds down to 500
    assert_eq!(frame_time(3000), 333); // 333.8 rounds down to 333
    assert_eq!(frame_time(400000), 3); // 2.5 rounds up to 3
}

#[test]
fn frame_time_knob_under_1000_is_unbounded() {
    assert_eq!(frame_time(0), u128::MAX);
    assert_eq!(frame_time(999), u128::MAX);
}

#[test]
fn frame_time_very_fast_knob_reaches_zero() {
    assert_eq!(frame_time(3000000), 0);
}

#[test]
fn pacer_never_releases_a_cycle_early() {
    for g in [
        TimerGranularity::Unknown,
        TimerGranularity::Good,
        TimerGranularity::Bad,
    ] {
        for elapsed in [0u128, 1, 24] {
            assert_ne!(pace_step(elapsed, 25, g), PaceAction::CycleDone);
        }
        assert_eq!(pace_step(25, 25, g), PaceAction::CycleDone);
        assert_eq!(pace_step(26, 25, g), PaceAction::CycleDone);
    }
}

#[test]
fn pacer_sleeps_only_under_a_good_timer() {
    assert_eq!(
        pace_step(10, 25, TimerGranularity::Good),
        PaceAction::SleepBriefly
    );
    assert_eq!(pace_step(10, 25, TimerGranularity::Bad), PaceAction::Spin);
    assert_eq!(
        pace_step(10, 25, TimerGranularity::Unknown),
        PaceAction::Spin
    );
}

#[test]
fn break_and_mab_hold_only_under_a_good_timer() {
    assert_eq!(break_hold_micros(TimerGranularity::Good), Some(DMX_BREAK));
    assert_eq!(mab_hold_micros(TimerGranularity::Good), Some(DMX_MAB));
    assert_eq!(DMX_BREAK, 110);
    assert_eq!(DMX_MAB, 16);
    for g in [TimerGranularity::Unknown, TimerGranularity::Bad] {
        assert_eq!(break_hold_micros(g), None);
        assert_eq!(mab_hold_micros(g), None);
    }
}

#[test]
fn consecutive_cycle_starts_respect_the_target() {
    // Ten paced cycles with a 5 ms target must span at least 50 ms.
    let target: u128 = 5;
    let first = Instant::now();
    for _ in 0..10 {
        let cycle_start = Instant::now();
        loop {
            match pace_step(
                cycle_start.elapsed().as_millis(),
                target,
                TimerGranularity::Unknown,
            ) {
                PaceAction::CycleDone => break,
                _ => {}
            }
        }
    }
    assert!(first.elapsed().as_millis() >= 10 * target);
}
