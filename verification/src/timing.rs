//! Timing for the transmission loop: the one-shot classification of the
//! host's sleep-timer granularity, the frame period derived from the
//! configured update frequency, and the pacing decision taken while waiting
//! for the next frame boundary.

use vstd::prelude::*;

verus! {

/// How fine-grained the host's sleep timer is. Measured once per session,
/// after the settle delay that follows opening the device, and immutable
/// for the lifetime of the transmission loop.
#[derive(Clone, Copy, Debug, PartialEq, Eq, Structural)]
pub enum TimerGranularity {
    /// Not yet measured.
    Unknown,
    /// The host delivers sub-millisecond sleeps reliably.
    Good,
    /// The host's scheduler cannot be trusted with short sleeps.
    Bad,
}

impl Default for TimerGranularity {
    /// Before the probe has run, the granularity is unknown.
    fn default() -> (r: Self)
        ensures
            r == TimerGranularity::Unknown,
    {
        TimerGranularity::Unknown
    }
}

/// Number of seconds of measured elapsed time above which the host timer is
/// classified coarse: the settle sleep asks for one second, and taking more
/// than three betrays a scheduler that overshoots sleeps badly.
pub const COARSE_TIMER_SECS: u64 = 3;

/// Classify the host timer from the wall-clock seconds that the one-second
/// settle sleep actually took.
pub fn classify_granularity(elapsed_secs: u64) -> (g: TimerGranularity)
    ensures
        g == (if elapsed_secs > COARSE_TIMER_SECS {
            TimerGranularity::Bad
        } else {
            TimerGranularity::Good
        }),
{
    if elapsed_secs > COARSE_TIMER_SECS {
        TimerGranularity::Bad
    } else {
        TimerGranularity::Good
    }
}

/// The frame period in milliseconds derived from the configured update
/// frequency. The configured value is an opaque tuning knob, not a true
/// frequency in Hz: it is first divided by 1000, and the period is 1000
/// over that quotient, rounded half up. A configured value under 1000
/// makes the quotient zero and the period unbounded, so the largest
/// representable period stands for it.
pub open spec fn frame_time_spec(update_frequency: u32) -> int {
    if update_frequency / 1000 == 0 {
        u128::MAX as int
    } else {
        (2000 + update_frequency / 1000) as int / (2 * (update_frequency / 1000)) as int
    }
}

/// Compute the frame period in milliseconds from the configured update
/// frequency (the default of 40000 yields a 25 ms period).
pub fn frame_time(update_frequency: u32) -> (t: u128)
    ensures
        t == frame_time_spec(update_frequency),
{
    let d: u32 = update_frequency / 1000;
    if d == 0 {
        u128::MAX
    } else {
        let num: u64 = 2000u64 + d as u64;
        let den: u64 = 2u64 * d as u64;
        (num / den) as u128
    }
}

/// What the pacer does next while waiting out the remainder of a frame
/// cycle.
#[derive(Clone, Copy, Debug, PartialEq, Eq, Structural)]
pub enum PaceAction {
    /// The frame period has elapsed: start the next cycle.
    CycleDone,
    /// Check the clock again immediately (busy wait).
    Spin,
    /// Sleep for about one millisecond, then check the clock again.
    SleepBriefly,
}

/// One pacing decision: given the milliseconds elapsed since the cycle
/// started and the frame period, either release the loop into the next
/// cycle, or keep waiting. The wait is a short sleep only when the host
/// timer is known to be fine-grained; under an unknown or coarse timer it
/// is a tight spin, so the period is never undershot by an overlong sleep.
/// The cycle is never released before the full period has elapsed.
pub fn pace_step(elapsed_ms: u128, frame_time_ms: u128, granularity: TimerGranularity) -> (a:
    PaceAction)
    ensures
        a == PaceAction::CycleDone <==> elapsed_ms >= frame_time_ms,
        elapsed_ms < frame_time_ms && granularity == TimerGranularity::Good ==> a
            == PaceAction::SleepBriefly,
        elapsed_ms < frame_time_ms && granularity != TimerGranularity::Good ==> a
            == PaceAction::Spin,
{
    if elapsed_ms >= frame_time_ms {
        PaceAction::CycleDone
    } else if matches!(granularity, TimerGranularity::Good) {
        PaceAction::SleepBriefly
    } else {
        PaceAction::Spin
    }
}

/// How long to hold the BREAK condition by an explicit sleep, in
/// microseconds: only a fine-grained host timer can deliver the nominal
/// 110 us reliably; otherwise the natural latency of the following
/// transport call substitutes, and no sleep is taken.
pub fn break_hold_micros(granularity: TimerGranularity) -> (r: Option<u64>)
    ensures
        granularity == TimerGranularity::Good ==> r == Some(crate::DMX_BREAK),
        granularity != TimerGranularity::Good ==> r is None,
{
    if matches!(granularity, TimerGranularity::Good) {
        Some(crate::DMX_BREAK)
    } else {
        None
    }
}

/// How long to hold the Mark-After-Break by an explicit sleep, in
/// microseconds, under the same rule as the BREAK hold.
pub fn mab_hold_micros(granularity: TimerGranularity) -> (r: Option<u64>)
    ensures
        granularity == TimerGranularity::Good ==> r == Some(crate::DMX_MAB),
        granularity != TimerGranularity::Good ==> r is None,
{
    if matches!(granularity, TimerGranularity::Good) {
        Some(crate::DMX_MAB)
    } else {
        None
    }
}

} // verus!
