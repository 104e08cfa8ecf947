//! The system clock, in ticks since startup.
//!
//! The tick rate is a build setting of `embassy_time`. Everything here holds
//! for every rate that it can be set to.

use vstd::prelude::*;

verus! {

/// The highest tick rate that `embassy_time` can be set to.
pub const MAX_TICK_HZ: u64 = 5_242_880_000;

/// A tick rate that `embassy_time` can be set to.
pub open spec fn valid_rate(hz: u64) -> bool {
    1 <= hz <= MAX_TICK_HZ
}

/// Why an instant could not be used.
#[derive(Clone, Copy, PartialEq, Eq, Structural, Debug)]
pub enum ClockError {
    /// The clock reads less than at an event that it has already stamped.
    Backwards,
    /// A deadline lies past the last instant that the clock can count to.
    Exhausted,
}

/// Reads the clock: `embassy_time::Instant::now`, as a tick count. Nothing is
/// claimed of the reading.
#[verifier::external_body]
pub(crate) fn now() -> (ticks: u64) {
    embassy_time::Instant::now().as_ticks()
}

/// Ticks in `secs` seconds.
pub open spec fn secs_ticks(secs: int, hz: u64) -> int {
    secs * hz
}

/// The tick count of `embassy_time::Duration::from_secs(secs)`. The rate behind
/// it is a constant that `embassy_time` is compiled with.
pub uninterp spec fn duration_ticks(secs: u64) -> u64;

/// Ticks in `secs` seconds of the system clock:
/// `embassy_time::Duration::from_secs`, as a tick count. Claims that it counts
/// every second alike, at one of the rates on offer, of which 1 Hz is the
/// lowest and `MAX_TICK_HZ` the highest. Which of them is left unsaid: it is
/// chosen where the firmware is built.
#[verifier::external_body]
fn duration_from_secs(secs: u64) -> (ticks: u64)
    requires
        secs * MAX_TICK_HZ <= u64::MAX,
    ensures
        ticks == duration_ticks(secs),
        ticks == secs_ticks(secs as int, duration_ticks(1)),
        secs <= ticks <= secs * MAX_TICK_HZ,
{
    embassy_time::Duration::from_secs(secs).as_ticks()
}

/// The rate of the system clock.
pub(crate) fn tick_rate() -> (hz: u64)
    ensures
        hz == duration_ticks(1),
        valid_rate(hz),
{
    duration_from_secs(1)
}

/// Ticks in `ms` milliseconds, rounded up.
pub open spec fn millis_ticks(ms: int, hz: u64) -> int {
    (ms * hz + 999) / 1000
}

/// Milliseconds in `ticks` ticks, rounded down.
pub open spec fn ticks_millis(ticks: int, hz: u64) -> int {
    ticks * 1000 / (hz as int)
}

pub fn from_secs(secs: u64, hz: u64) -> (ticks: u64)
    requires
        secs_ticks(secs as int, hz) <= u64::MAX,
    ensures
        ticks == secs_ticks(secs as int, hz),
{
    secs * hz
}

pub fn from_millis(ms: u64, hz: u64) -> (ticks: u64)
    requires
        ms * hz + 999 <= u64::MAX,
    ensures
        ticks == millis_ticks(ms as int, hz),
{
    (ms * hz + 999) / 1000
}

/// Milliseconds in `ticks` ticks, modulo `period`.
pub fn millis_phase(ticks: u64, hz: u64, period: u64) -> (ms: u64)
    requires
        valid_rate(hz),
        period > 0,
    ensures
        ms == ticks_millis(ticks as int, hz) % (period as int),
        ms < period,
{
    let ms: u128 = ticks as u128 * 1000 / hz as u128;
    (ms % period as u128) as u64
}

/// A second has as many ticks as the rate says, and seconds add up.
pub proof fn seconds_add_up(a: int, b: int, hz: u64)
    ensures
        secs_ticks(0, hz) == 0,
        secs_ticks(1, hz) == hz,
        secs_ticks(a + b, hz) == secs_ticks(a, hz) + secs_ticks(b, hz),
{
    assert((a + b) * hz == a * hz + b * hz) by (nonlinear_arith);
}

/// The ticks for a number of milliseconds are the fewest that last as long.
pub proof fn millis_are_rounded_up(ms: int, hz: u64)
    ensures
        1000 * (millis_ticks(ms, hz) - 1) < ms * hz <= 1000 * millis_ticks(ms, hz),
{
}

/// The milliseconds in a number of ticks are the most that have passed in full.
pub proof fn ticks_are_rounded_down(ticks: int, hz: u64, ms: int)
    requires
        1 <= hz,
    ensures
        ticks_millis(ticks, hz) == ms <==> ms * hz <= 1000 * ticks < (ms + 1) * hz,
{
    let q = ticks_millis(ticks, hz);
    let d = hz as int;
    vstd::arithmetic::div_mod::lemma_fundamental_div_mod(ticks * 1000, d);
    vstd::arithmetic::div_mod::lemma_mod_bound(ticks * 1000, d);
    assert(q * d <= 1000 * ticks < (q + 1) * d) by (nonlinear_arith)
        requires
            ticks * 1000 == d * q + (ticks * 1000) % d,
            0 <= (ticks * 1000) % d < d,
    ;
    assert(ms * d <= 1000 * ticks < (ms + 1) * d ==> ms == q) by (nonlinear_arith)
        requires
            q * d <= 1000 * ticks < (q + 1) * d,
            1 <= d,
    ;
}

} // verus!
