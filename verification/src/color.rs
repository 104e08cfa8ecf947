//! Colors, light effects and the per-frame fade between two colors.

use vstd::prelude::*;

verus! {

/// A color as the LEDs take it: one drive level per channel, green first.
#[derive(Clone, Copy, PartialEq, Eq, Structural, Debug)]
pub struct Grb {
    pub g: u8,
    pub r: u8,
    pub b: u8,
}

// Channel values are perceptually balanced (green reads brighter than red or
// blue at equal drive) and kept low for power.
impl Grb {
    #[verifier::allow_in_spec]
    pub fn off() -> Grb
        returns
            (Grb { g: 0, r: 0, b: 0 }),
    {
        Grb { g: 0, r: 0, b: 0 }
    }

    #[verifier::allow_in_spec]
    pub fn red() -> Grb
        returns
            (Grb { g: 0, r: 18, b: 0 }),
    {
        Grb { g: 0, r: 18, b: 0 }
    }

    #[verifier::allow_in_spec]
    pub fn green() -> Grb
        returns
            (Grb { g: 12, r: 0, b: 0 }),
    {
        Grb { g: 12, r: 0, b: 0 }
    }

    #[verifier::allow_in_spec]
    pub fn blue() -> Grb
        returns
            (Grb { g: 0, r: 0, b: 18 }),
    {
        Grb { g: 0, r: 0, b: 18 }
    }

    #[verifier::allow_in_spec]
    pub fn magenta() -> Grb
        returns
            (Grb { g: 0, r: 14, b: 16 }),
    {
        Grb { g: 0, r: 14, b: 16 }
    }

    #[verifier::allow_in_spec]
    pub fn cyan() -> Grb
        returns
            (Grb { g: 10, r: 0, b: 14 }),
    {
        Grb { g: 10, r: 0, b: 14 }
    }

    #[verifier::allow_in_spec]
    pub fn amber() -> Grb
        returns
            (Grb { g: 6, r: 18, b: 0 }),
    {
        Grb { g: 6, r: 18, b: 0 }
    }
}

/// What one LED is meant to show.
#[derive(Clone, Copy, PartialEq, Eq, Structural, Debug)]
pub enum LightEffect {
    Off,
    Solid(Grb),
    Breath(Grb),
    LowBattery,
}

impl LightEffect {
    /// Whether the color of the effect changes by itself as time passes.
    pub open spec fn animated(self) -> bool {
        self is Breath || self is LowBattery
    }

    pub fn is_animated(self) -> (animated: bool)
        ensures
            animated == self.animated(),
    {
        match self {
            LightEffect::Breath(_) => true,
            LightEffect::LowBattery => true,
            LightEffect::Off => false,
            LightEffect::Solid(_) => false,
        }
    }
}

/// Channel step per frame: a full fade takes about 200 ms at 30 frames a second.
pub const FADE_STEP: u8 = 3;

/// `cur` moved toward `target` by `step`, stopping at `target`.
pub open spec fn channel_toward(cur: u8, target: u8, step: u8) -> u8 {
    if cur < target {
        if target - cur <= step {
            target
        } else {
            (cur + step) as u8
        }
    } else {
        if cur - target <= step {
            target
        } else {
            (cur - step) as u8
        }
    }
}

/// `cur` moved toward `target` by `step` in every channel.
pub open spec fn toward(cur: Grb, target: Grb, step: u8) -> Grb {
    Grb {
        g: channel_toward(cur.g, target.g, step),
        r: channel_toward(cur.r, target.r, step),
        b: channel_toward(cur.b, target.b, step),
    }
}

pub fn approach_channel(cur: u8, target: u8, step: u8) -> (next: u8)
    ensures
        next == channel_toward(cur, target, step),
{
    if cur < target {
        let next: u8 = cur.saturating_add(step);
        if next < target {
            next
        } else {
            target
        }
    } else if cur > target {
        let next: u8 = cur.saturating_sub(step);
        if next > target {
            next
        } else {
            target
        }
    } else {
        cur
    }
}

/// One frame of the fade from `cur` to `target`.
pub fn approach(cur: Grb, target: Grb, step: u8) -> (next: Grb)
    ensures
        next == toward(cur, target, step),
{
    Grb {
        g: approach_channel(cur.g, target.g, step),
        r: approach_channel(cur.r, target.r, step),
        b: approach_channel(cur.b, target.b, step),
    }
}

/// `cur` after `frames` frames of fading to `target`.
pub open spec fn faded(cur: Grb, target: Grb, step: u8, frames: nat) -> Grb
    decreases frames,
{
    if frames == 0 {
        cur
    } else {
        toward(faded(cur, target, step, (frames - 1) as nat), target, step)
    }
}

/// How far apart two levels of a channel are.
pub open spec fn gap(a: u8, b: u8) -> int {
    if a < b {
        b - a
    } else {
        a - b
    }
}

/// What is left of a gap after `frames` frames of `step` each.
pub open spec fn gap_left(gap: int, step: u8, frames: nat) -> int {
    if gap <= frames * step {
        0
    } else {
        gap - frames * step
    }
}

/// Whether `x` lies between `a` and `b`, either end included.
pub open spec fn between(a: u8, x: u8, b: u8) -> bool {
    a <= x <= b || b <= x <= a
}

/// Whether `next` lies at most `step` from `cur` in every channel, and between
/// `cur` and `target`.
pub open spec fn eased(cur: Grb, next: Grb, target: Grb, step: u8) -> bool {
    &&& gap(cur.g, next.g) <= step && between(cur.g, next.g, target.g)
    &&& gap(cur.r, next.r) <= step && between(cur.r, next.r, target.r)
    &&& gap(cur.b, next.b) <= step && between(cur.b, next.b, target.b)
}

/// One frame of a fade moves no channel by more than `step` and none past the
/// target.
pub proof fn toward_eases(cur: Grb, target: Grb, step: u8)
    ensures
        eased(cur, toward(cur, target, step), target, step),
{
}

/// A fade closes every channel's gap by `step` a frame and never leaves the
/// range between its two ends.
pub proof fn fade_progress(cur: Grb, target: Grb, step: u8, frames: nat)
    ensures
        ({
            let next = faded(cur, target, step, frames);
            &&& gap(next.g, target.g) == gap_left(gap(cur.g, target.g), step, frames)
            &&& gap(next.r, target.r) == gap_left(gap(cur.r, target.r), step, frames)
            &&& gap(next.b, target.b) == gap_left(gap(cur.b, target.b), step, frames)
            &&& between(cur.g, next.g, target.g)
            &&& between(cur.r, next.r, target.r)
            &&& between(cur.b, next.b, target.b)
        }),
    decreases frames,
{
    if frames > 0 {
        fade_progress(cur, target, step, (frames - 1) as nat);
        assert(frames * step == (frames - 1) * step + step) by (nonlinear_arith);
    } else {
        assert(0 * step == 0);
    }
}

/// A fade whose frames cover the widest gap has arrived, and arrived it stays.
pub proof fn fade_arrives(cur: Grb, target: Grb, step: u8, frames: nat)
    requires
        gap(cur.g, target.g) <= frames * step,
        gap(cur.r, target.r) <= frames * step,
        gap(cur.b, target.b) <= frames * step,
    ensures
        faded(cur, target, step, frames) == target,
        toward(target, target, step) == target,
{
    fade_progress(cur, target, step, frames);
}

/// One frame of a fade, channel by channel: a channel that is at most `step`
/// from its target arrives; any other moves by exactly `step`, up if it lies
/// below the target and down if it lies above.
pub proof fn toward_moves_by_step(cur: Grb, target: Grb, step: u8)
    ensures
        ({
            let next = toward(cur, target, step);
            &&& -step <= target.g - cur.g <= step ==> next.g == target.g
            &&& target.g - cur.g > step ==> next.g == cur.g + step
            &&& cur.g - target.g > step ==> next.g == cur.g - step
            &&& -step <= target.r - cur.r <= step ==> next.r == target.r
            &&& target.r - cur.r > step ==> next.r == cur.r + step
            &&& cur.r - target.r > step ==> next.r == cur.r - step
            &&& -step <= target.b - cur.b <= step ==> next.b == target.b
            &&& target.b - cur.b > step ==> next.b == cur.b + step
            &&& cur.b - target.b > step ==> next.b == cur.b - step
        }),
{
}

/// Breathing and the low-battery blink move by themselves, a steady color and
/// darkness do not, whatever the color.
pub proof fn breath_and_blink_are_animated(color: Grb)
    ensures
        LightEffect::Breath(color).animated(),
        LightEffect::LowBattery.animated(),
        !LightEffect::Solid(color).animated(),
        !LightEffect::Off.animated(),
{
}

} // verus!
