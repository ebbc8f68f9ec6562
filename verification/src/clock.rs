//! The card's uptime as hours, minutes and seconds.

use vstd::prelude::*;
use crate::timestamp::Timestamp;

verus! {

/// `Duration::<u64, 1, 1_000>::to_secs` of fugit, on a duration of
/// `millis` ticks of a millisecond: the whole seconds in it. For this tick
/// the crate divides the ticks by 1000.
#[verifier::external_body]
fn whole_seconds(millis: u64) -> (seconds: u64)
    ensures
        seconds == millis / 1000,
{
    fugit::Duration::<u64, 1, 1_000>::from_ticks(millis).to_secs()
}

/// `Duration::<u64, 1, 1_000>::to_minutes` of fugit, on a duration of
/// `millis` ticks of a millisecond: the whole minutes in it. For this tick
/// the crate divides the ticks by 60 000.
#[verifier::external_body]
fn whole_minutes(millis: u64) -> (minutes: u64)
    ensures
        minutes == millis / 60_000,
{
    fugit::Duration::<u64, 1, 1_000>::from_ticks(millis).to_minutes()
}

/// `Duration::<u64, 1, 1_000>::to_hours` of fugit, on a duration of
/// `millis` ticks of a millisecond: the whole hours in it. For this tick
/// the crate divides the ticks by 3 600 000.
#[verifier::external_body]
fn whole_hours(millis: u64) -> (hours: u64)
    ensures
        hours == millis / 3_600_000,
{
    fugit::Duration::<u64, 1, 1_000>::from_ticks(millis).to_hours()
}

/// A time of day as a clock shows it, with hours that count on past 24.
#[derive(Debug, Clone, Copy, PartialEq, Eq, Structural)]
pub struct ClockTime {
    pub hours: u64,
    pub minutes: u64,
    pub seconds: u64,
}

/// What a clock shows after `millis` milliseconds.
pub open spec fn spec_clock_time(millis: nat) -> ClockTime {
    ClockTime {
        hours: (millis / 3_600_000) as u64,
        minutes: ((millis / 60_000) % 60) as u64,
        seconds: ((millis / 1000) % 60) as u64,
    }
}

/// What a clock shows at `uptime`: the whole hours, the minutes of the
/// hour and the seconds of the minute.
pub fn clock_time(uptime: Timestamp) -> (time: ClockTime)
    ensures
        time == spec_clock_time(uptime@),
{
    let millis = uptime.millis();
    ClockTime {
        hours: whole_hours(millis),
        minutes: whole_minutes(millis) % 60,
        seconds: whole_seconds(millis) % 60,
    }
}

/// The hours, minutes and seconds of a clock add up to the whole seconds
/// that have passed, with minutes and seconds below 60.
pub proof fn lemma_clock_time_adds_up(millis: nat)
    requires
        millis <= u64::MAX,
    ensures
        spec_clock_time(millis).minutes < 60,
        spec_clock_time(millis).seconds < 60,
        spec_clock_time(millis).hours * 3600 + spec_clock_time(millis).minutes * 60
            + spec_clock_time(millis).seconds == millis / 1000,
{
    let seconds = millis / 1000;
    assert(millis / 60_000 == seconds / 60) by (nonlinear_arith)
        requires
            seconds == millis / 1000,
    ;
    assert(millis / 3_600_000 == seconds / 3600) by (nonlinear_arith)
        requires
            seconds == millis / 1000,
    ;
    assert(seconds / 3600 == (seconds / 60) / 60) by (nonlinear_arith);
}

} // verus!
