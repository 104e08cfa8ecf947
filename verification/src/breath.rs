//! The breathing curve and the low-battery blink, as functions of time.

use vstd::prelude::*;

use crate::color::Grb;

verus! {

/// Steps of the breathing curve per breath.
pub const BREATH_STEPS: usize = 64;

/// Length of one breath, in milliseconds.
pub const BREATH_PERIOD_MS: u64 = 3000;

/// Time from one double pulse of the low-battery blink to the next, in milliseconds.
pub const LOW_BLINK_PERIOD_MS: u64 = 1200;

/// Linear ramp up to the middle of the breath and down again.
pub open spec fn triangle(i: int) -> int {
    if i < BREATH_STEPS / 2 {
        i
    } else {
        BREATH_STEPS - i
    }
}

/// Brightness at step `i` of a breath, between 0 and 255: the square of a
/// linear ramp, which the eye sees as an even rise and fall.
pub open spec fn breath_curve(i: int) -> int {
    let ramp = triangle(i) * 1000 / (BREATH_STEPS as int / 2);
    (ramp * ramp / 1000) * 255 / 1000
}

/// The step of the breath that is current `ms` milliseconds after startup.
pub open spec fn breath_step(ms: int) -> int {
    (ms % (BREATH_PERIOD_MS as int)) * BREATH_STEPS / (BREATH_PERIOD_MS as int)
}

/// Whether the low-battery blink is lit `ms` milliseconds after startup: two
/// pulses of 200 ms, 200 ms apart, at the start of every period.
pub open spec fn low_blink_lit(ms: int) -> bool {
    let phase = ms % (LOW_BLINK_PERIOD_MS as int);
    phase < 200 || 400 <= phase < 600
}

/// `color` at brightness `level` out of 255, every channel scaled alike.
pub open spec fn dimmed(color: Grb, level: int) -> Grb {
    Grb {
        g: (color.g * level / 255) as u8,
        r: (color.r * level / 255) as u8,
        b: (color.b * level / 255) as u8,
    }
}

/// The curve lies within a byte.
pub proof fn breath_curve_range(i: int)
    requires
        0 <= i <= BREATH_STEPS,
    ensures
        0 <= breath_curve(i) <= 255,
{
    let ramp = triangle(i) * 1000 / 32;
    assert(0 <= ramp <= 1000);
    assert(0 <= ramp * ramp <= 1_000_000) by (nonlinear_arith)
        requires
            0 <= ramp <= 1000,
    ;
}

/// The breathing curve, one entry per step.
pub fn breath_lut() -> (table: [u8; BREATH_STEPS])
    ensures
        forall|i: int| 0 <= i < BREATH_STEPS ==> table@[i] == breath_curve(i),
{
    let mut table: [u8; BREATH_STEPS] = [0u8;64];
    let half: u32 = (BREATH_STEPS / 2) as u32;
    let mut i: usize = 0;
    while i < BREATH_STEPS
        invariant
            i <= BREATH_STEPS,
            half == 32,
            forall|j: int| 0 <= j < i ==> table@[j] == breath_curve(j),
        decreases BREATH_STEPS - i,
    {
        let up: u32 = if (i as u32) < half {
            i as u32
        } else {
            BREATH_STEPS as u32 - i as u32
        };
        let lin: u32 = up * 1000 / half;
        assert(lin * lin <= 1_000_000) by (nonlinear_arith)
            requires
                0 <= lin <= 1000,
        ;
        let gamma: u32 = lin * lin / 1000;
        proof {
            breath_curve_range(i as int);
        }
        table[i] = (gamma * 255 / 1000) as u8;
        i += 1;
    }
    table
}

/// The brightness of the breath, from the milliseconds since startup taken
/// modulo the length of a breath.
pub fn breath_level(ms: u64) -> (level: u8)
    requires
        ms < BREATH_PERIOD_MS,
    ensures
        level == breath_curve(breath_step(ms as int)),
{
    assert(ms * 64 / 3000 < 64);
    let step: usize = (ms * BREATH_STEPS as u64 / BREATH_PERIOD_MS) as usize;
    let table: [u8; BREATH_STEPS] = breath_lut();
    table[step]
}

/// `color` at brightness `level` out of 255.
pub fn dim(color: Grb, level: u8) -> (dimmer: Grb)
    ensures
        dimmer == dimmed(color, level as int),
{
    let level: u16 = level as u16;
    assert(color.g * level <= 255 * 255 && color.r * level <= 255 * 255 && color.b * level <= 255
        * 255) by (nonlinear_arith)
        requires
            level <= 255,
            color.g <= 255,
            color.r <= 255,
            color.b <= 255,
    ;
    Grb {
        g: (color.g as u16 * level / 255) as u8,
        r: (color.r as u16 * level / 255) as u8,
        b: (color.b as u16 * level / 255) as u8,
    }
}

/// The low-battery blink, from the milliseconds since startup taken modulo its period.
pub fn low_blink_on(ms: u64) -> (lit: bool)
    requires
        ms < LOW_BLINK_PERIOD_MS,
    ensures
        lit == low_blink_lit(ms as int),
{
    ms < 200 || (400 <= ms && ms < 600)
}

proof fn curve_grows_with_ramp(a: int, b: int)
    requires
        0 <= a <= b <= 1000,
    ensures
        (a * a / 1000) * 255 / 1000 <= (b * b / 1000) * 255 / 1000,
{
    assert(a * a <= b * b) by (nonlinear_arith)
        requires
            0 <= a <= b,
    ;
}

/// A breath starts dark, rises without a dip to full brightness in its middle,
/// and falls as it rose.
pub proof fn breath_rises_and_falls(i: int, j: int)
    requires
        0 <= i <= j <= BREATH_STEPS / 2,
    ensures
        breath_curve(0) == 0,
        breath_curve(BREATH_STEPS as int / 2) == 255,
        breath_curve(i) <= breath_curve(j),
        breath_curve(BREATH_STEPS - i) == breath_curve(i),
{
    let ramp_i = triangle(i) * 1000 / 32;
    let ramp_j = triangle(j) * 1000 / 32;
    curve_grows_with_ramp(ramp_i, ramp_j);
    assert(BREATH_STEPS as int / 2 == 32);
    let dark = triangle(0) * 1000 / 32;
    let peak = triangle(32) * 1000 / 32;
    assert(dark * dark == 0 && peak * peak == 1_000_000) by (nonlinear_arith)
        requires
            dark == 0,
            peak == 1000,
    ;
}

/// Dimming never brightens a channel and keeps a dark one dark; full level
/// shows the color itself, level zero nothing.
pub proof fn dimming_keeps_hue(color: Grb, level: u8)
    ensures
        dimmed(color, level as int).g <= color.g,
        dimmed(color, level as int).r <= color.r,
        dimmed(color, level as int).b <= color.b,
        dimmed(color, 255) == color,
        dimmed(color, 0) == Grb::off(),
{
    assert(color.g * level <= color.g * 255 && color.r * level <= color.r * 255 && color.b * level
        <= color.b * 255 && 0 <= color.g * level && 0 <= color.r * level && 0 <= color.b * level)
        by (nonlinear_arith)
        requires
            level <= 255,
            color.g >= 0,
            color.r >= 0,
            color.b >= 0,
    ;
}

/// Breath and blink repeat with their periods.
pub proof fn breath_and_blink_repeat(ms: int, periods: int)
    requires
        0 <= ms,
        0 <= periods,
    ensures
        breath_step(ms + periods * BREATH_PERIOD_MS) == breath_step(ms),
        low_blink_lit(ms + periods * LOW_BLINK_PERIOD_MS) == low_blink_lit(ms),
        0 <= breath_step(ms) < BREATH_STEPS,
{
    vstd::arithmetic::div_mod::lemma_mod_multiples_vanish(periods, ms, BREATH_PERIOD_MS as int);
    vstd::arithmetic::div_mod::lemma_mod_multiples_vanish(periods, ms, LOW_BLINK_PERIOD_MS as int);
}

/// In the breath that starts `3000 * breath` milliseconds after startup, step
/// `k` is current exactly for the milliseconds that lie in the `k`-th of 64
/// equal parts.
pub proof fn steps_divide_the_breath(ms: int, breath: int, k: int)
    requires
        3000 * breath <= ms < 3000 * (breath + 1),
    ensures
        breath_step(ms) == k <==> 3000 * k <= 64 * (ms - 3000 * breath) < 3000 * (k + 1),
{
    vstd::arithmetic::div_mod::lemma_fundamental_div_mod_converse(
        ms,
        3000,
        breath,
        ms - 3000 * breath,
    );
}

/// The curve is the square of the way to the middle of the breath, in three
/// roundings down: the way in thousandths, its square in thousandths, and that
/// out of 255.
pub proof fn curve_squares_the_ramp(k: int, ramp: int, square: int, level: int)
    requires
        0 <= k <= 64,
        32 * ramp <= 1000 * (if k < 32 { k } else { 64 - k }) < 32 * (ramp + 1),
        1000 * square <= ramp * ramp < 1000 * (square + 1),
        1000 * level <= 255 * square < 1000 * (level + 1),
    ensures
        breath_curve(k) == level,
{
    assert(ramp == triangle(k) * 1000 / 32);
}

/// The curve follows the exact square, out of 255, to within two units.
pub proof fn curve_is_near_the_square(k: int)
    requires
        0 <= k <= 64,
    ensures
        ({
            let up = if k < 32 { k } else { 64 - k };
            1024 * breath_curve(k) <= 255 * (up * up) < 1024 * (breath_curve(k) + 2)
        }),
{
    let up = if k < 32 {
        k
    } else {
        64 - k
    };
    let ramp = up * 1000 / 32;
    let square = ramp * ramp / 1000;
    assert(1024 * (ramp * ramp) <= 1_000_000 * (up * up)) by (nonlinear_arith)
        requires
            0 <= ramp,
            0 <= up,
            32 * ramp <= 1000 * up,
    ;
    assert(1_000_000 * (up * up) < 1024 * (ramp * ramp) + 1024 * 2 * 1000 + 1024)
        by (nonlinear_arith)
        requires
            0 <= ramp <= 1000,
            0 <= up,
            1000 * up < 32 * (ramp + 1),
    ;
}

/// Within a breath the level rises without a dip through the first half and
/// falls without a bump through the second.
pub proof fn level_rises_then_falls(breath: int, earlier: int, later: int)
    requires
        0 <= earlier <= later < 3000,
    ensures
        ({
            let first = breath_curve(breath_step(3000 * breath + earlier));
            let second = breath_curve(breath_step(3000 * breath + later));
            &&& later <= 1500 ==> first <= second
            &&& 1500 <= earlier ==> first >= second
        }),
{
    let i = earlier * 64 / 3000;
    let j = later * 64 / 3000;
    steps_divide_the_breath(3000 * breath + earlier, breath, i);
    steps_divide_the_breath(3000 * breath + later, breath, j);
    if later <= 1500 {
        breath_rises_and_falls(i, j);
    }
    if 1500 <= earlier {
        breath_rises_and_falls(64 - j, 64 - i);
        breath_rises_and_falls(64 - i, 64 - i);
    }
}

/// In the blink that starts `1200 * blink` milliseconds after startup, the
/// light is on for the first 200 ms and for the 200 ms from 400 ms on.
pub proof fn blink_pulses_twice(ms: int, blink: int)
    requires
        1200 * blink <= ms < 1200 * (blink + 1),
    ensures
        low_blink_lit(ms) <==> {
            ||| ms < 1200 * blink + 200
            ||| 1200 * blink + 400 <= ms < 1200 * blink + 600
        },
{
    vstd::arithmetic::div_mod::lemma_fundamental_div_mod_converse(
        ms,
        1200,
        blink,
        ms - 1200 * blink,
    );
}

/// A dimmed channel is the `level`-th part of 255 of the channel, rounded down.
pub proof fn dimming_scales_channels(color: Grb, level: u8)
    ensures
        ({
            let dimmer = dimmed(color, level as int);
            &&& 255 * dimmer.g <= color.g * level < 255 * (dimmer.g + 1)
            &&& 255 * dimmer.r <= color.r * level < 255 * (dimmer.r + 1)
            &&& 255 * dimmer.b <= color.b * level < 255 * (dimmer.b + 1)
        }),
{
    assert(0 <= color.g * level <= 255 * 255 && 0 <= color.r * level <= 255 * 255 && 0 <= color.b
        * level <= 255 * 255) by (nonlinear_arith)
        requires
            0 <= level <= 255,
            0 <= color.g <= 255,
            0 <= color.r <= 255,
            0 <= color.b <= 255,
    ;
}

} // verus!
