//! What each LED shows at a given time.

use vstd::prelude::*;

use crate::battery::{BATTERY_FULL, BATTERY_LOW};
use crate::breath;
use crate::breath::{BREATH_PERIOD_MS, LOW_BLINK_PERIOD_MS};
use crate::clock;
use crate::color::{Grb, LightEffect};
use crate::event::Role;
use crate::indicator::Ws2812Indicator;

verus! {

/// How long a connection, profile or charge notice shows, in seconds.
pub const NOTICE_SECS: u64 = 3;

/// How long advertising or a missing half shows, in seconds.
pub const ACTIVITY_SECS: u64 = 60;

/// The color of a Bluetooth profile.
pub open spec fn profile_hue(profile: u8) -> Grb {
    if profile == 0 {
        Grb::red()
    } else if profile == 1 {
        Grb::green()
    } else if profile == 2 {
        Grb::blue()
    } else if profile == 3 {
        Grb::magenta()
    } else {
        Grb::cyan()
    }
}

impl Ws2812Indicator {
    /// Whether less than `secs` seconds lie between `since` and `now`.
    pub open spec fn within(self, since: u64, now: u64, secs: u64) -> bool {
        now - since < clock::secs_ticks(secs as int, self.hz)
    }

    /// `effect` for `secs` seconds from `since` on, then `after`.
    pub open spec fn shown_for(
        self,
        secs: u64,
        since: u64,
        now: u64,
        effect: LightEffect,
        after: LightEffect,
    ) -> LightEffect {
        if self.within(since, now, secs) {
            effect
        } else {
            after
        }
    }

    /// Whether a low-battery alert blinks at `now`.
    pub open spec fn alerting(self, now: u64) -> bool {
        self.at_most(BATTERY_LOW) && now < self.low_alert_until
    }

    /// What tells about the other half: blue breathing while it is missing,
    /// solid blue once it is there.
    pub open spec fn split_notice(self, now: u64) -> LightEffect {
        if self.peer_connected {
            self.shown_for(
                NOTICE_SECS,
                self.peer_since,
                now,
                LightEffect::Solid(Grb::blue()),
                LightEffect::Off,
            )
        } else {
            self.shown_for(
                ACTIVITY_SECS,
                self.peer_since,
                now,
                LightEffect::Breath(Grb::blue()),
                LightEffect::Off,
            )
        }
    }

    /// What the inner LED shows at `now`: charging, else a low battery, else,
    /// on the central half, the link to the other half.
    pub open spec fn inner_at(self, now: u64) -> LightEffect {
        if self.charging {
            if self.at_least(BATTERY_FULL) {
                self.shown_for(
                    NOTICE_SECS,
                    self.charge_since,
                    now,
                    LightEffect::Solid(Grb::green()),
                    LightEffect::Off,
                )
            } else {
                LightEffect::Breath(Grb::green())
            }
        } else if self.alerting(now) {
            LightEffect::LowBattery
        } else if self.role == Role::Central {
            self.split_notice(now)
        } else {
            LightEffect::Off
        }
    }

    /// What the outer LED of the central half shows when the link to the host
    /// has nothing to tell.
    pub open spec fn lock_light(self) -> LightEffect {
        if self.caps_lock {
            LightEffect::Solid(Grb::amber())
        } else {
            LightEffect::Off
        }
    }

    /// Whether a switch of profiles shows at `now`, with or without a link. One
    /// that is stamped later than `now` does not.
    pub open spec fn profile_notice(self, now: u64) -> bool {
        self.profile_since matches Some(since) && since <= now && self.within(
            since,
            now,
            NOTICE_SECS,
        )
    }

    /// Whether a new link or profile shows at `now`.
    pub open spec fn host_notice(self, now: u64) -> bool {
        ||| self.ble_connected && self.within(self.ble_since, now, NOTICE_SECS)
        ||| self.profile_notice(now)
    }

    /// What the outer LED shows at `now`: on the central half a new link or
    /// profile, else advertising, else Caps Lock; on a peripheral half the link
    /// to the central one.
    pub open spec fn outer_at(self, now: u64) -> LightEffect {
        let hue = profile_hue(self.ble_profile);
        match self.role {
            Role::Central => if self.host_notice(now) {
                LightEffect::Solid(hue)
            } else if self.ble_advertising && self.within(self.ble_since, now, ACTIVITY_SECS) {
                LightEffect::Breath(hue)
            } else {
                self.lock_light()
            },
            Role::Peripheral => self.split_notice(now),
        }
    }

    /// The stamp whose age the inner LED shows at `now`, if it shows any.
    pub open spec fn inner_stamp_at(self, now: u64) -> Option<u64> {
        if self.charging {
            if self.at_least(BATTERY_FULL) {
                Some(self.charge_since)
            } else {
                None
            }
        } else if self.role == Role::Central && !self.alerting(now) {
            Some(self.peer_since)
        } else {
            None
        }
    }

    /// Whether the inner effect can be told at `now`: it does not show the age
    /// of a stamp that lies in the future.
    pub open spec fn inner_tellable(self, now: u64) -> bool {
        self.inner_stamp_at(now) matches Some(since) ==> since <= now
    }

    /// Whether the outer effect can be told at `now`: the link whose age it
    /// shows, if any, is not stamped later.
    pub open spec fn outer_tellable(self, now: u64) -> bool {
        match self.role {
            Role::Central => self.ble_connected || self.ble_advertising ==> self.ble_since <= now,
            Role::Peripheral => self.peer_since <= now,
        }
    }

    /// Whether both effects can be told at `now`.
    pub open spec fn effects_tellable(self, now: u64) -> bool {
        self.inner_tellable(now) && self.outer_tellable(now)
    }

    /// The color of an effect at `now`.
    pub open spec fn color_at(self, effect: LightEffect, now: u64) -> Grb {
        let ms = clock::ticks_millis(now as int, self.hz);
        match effect {
            LightEffect::Off => Grb::off(),
            LightEffect::Solid(color) => color,
            LightEffect::Breath(color) => breath::dimmed(
                color,
                breath::breath_curve(breath::breath_step(ms)),
            ),
            LightEffect::LowBattery => if breath::low_blink_lit(ms) {
                Grb::red()
            } else {
                Grb::off()
            },
        }
    }

    pub fn profile_color(&self) -> (color: Grb)
        ensures
            color == profile_hue(self.ble_profile),
    {
        match self.ble_profile {
            0 => Grb::red(),
            1 => Grb::green(),
            2 => Grb::blue(),
            3 => Grb::magenta(),
            _ => Grb::cyan(),
        }
    }

    /// Whether less than `secs` seconds have passed from `since` to `now`.
    fn is_within(&self, since: u64, now: u64, secs: u64) -> (yes: bool)
        requires
            self.wf(),
            since <= now,
            secs <= ACTIVITY_SECS,
        ensures
            yes == self.within(since, now, secs),
    {
        assert(secs * self.hz <= 60 * 5_242_880_000) by (nonlinear_arith)
            requires
                secs <= 60,
                self.hz <= 5_242_880_000,
        ;
        now - since < clock::from_secs(secs, self.hz)
    }

    /// The brightness of a breath at `now`.
    pub fn breath_level(&self, now: u64) -> (level: u8)
        requires
            self.wf(),
        ensures
            level == breath::breath_curve(
                breath::breath_step(clock::ticks_millis(now as int, self.hz)),
            ),
    {
        breath::breath_level(clock::millis_phase(now, self.hz, BREATH_PERIOD_MS))
    }

    /// `color` as a breath shows it at `now`.
    pub fn breath_color(&self, color: Grb, now: u64) -> (dimmer: Grb)
        requires
            self.wf(),
        ensures
            dimmer == self.color_at(LightEffect::Breath(color), now),
    {
        breath::dim(color, self.breath_level(now))
    }

    /// Whether the low-battery blink is lit at `now`.
    pub fn low_blink_on(&self, now: u64) -> (on: bool)
        requires
            self.wf(),
        ensures
            on == breath::low_blink_lit(clock::ticks_millis(now as int, self.hz)),
    {
        breath::low_blink_on(clock::millis_phase(now, self.hz, LOW_BLINK_PERIOD_MS))
    }

    pub fn effect_color(&self, effect: LightEffect, now: u64) -> (color: Grb)
        requires
            self.wf(),
        ensures
            color == self.color_at(effect, now),
    {
        match effect {
            LightEffect::Off => Grb::off(),
            LightEffect::Solid(color) => color,
            LightEffect::Breath(color) => self.breath_color(color, now),
            LightEffect::LowBattery => {
                if self.low_blink_on(now) {
                    Grb::red()
                } else {
                    Grb::off()
                }
            },
        }
    }

    pub fn low_blinking(&self, now: u64) -> (yes: bool)
        ensures
            yes == self.alerting(now),
    {
        self.battery_at_most(BATTERY_LOW) && now < self.low_alert_until
    }

    pub fn inner_effect(&self, now: u64) -> (effect: LightEffect)
        requires
            self.wf(),
            self.inner_tellable(now),
        ensures
            effect == self.inner_at(now),
    {
        if self.charging {
            if self.battery_at_least(BATTERY_FULL) {
                return if self.is_within(self.charge_since, now, NOTICE_SECS) {
                    LightEffect::Solid(Grb::green())
                } else {
                    LightEffect::Off
                };
            }
            return LightEffect::Breath(Grb::green());
        }
        if self.low_blinking(now) {
            return LightEffect::LowBattery;
        }
        if self.role == Role::Central {
            if !self.peer_connected {
                return if self.is_within(self.peer_since, now, ACTIVITY_SECS) {
                    LightEffect::Breath(Grb::blue())
                } else {
                    LightEffect::Off
                };
            }
            if self.is_within(self.peer_since, now, NOTICE_SECS) {
                return LightEffect::Solid(Grb::blue());
            }
        }
        LightEffect::Off
    }

    /// Whether a new link or profile shows at `now`.
    fn shows_host_notice(&self, now: u64) -> (yes: bool)
        requires
            self.wf(),
            self.role == Role::Central,
            self.outer_tellable(now),
        ensures
            yes == self.host_notice(now),
    {
        if self.ble_connected && self.is_within(self.ble_since, now, NOTICE_SECS) {
            return true;
        }
        match self.profile_since {
            Some(since) => since <= now && self.is_within(since, now, NOTICE_SECS),
            None => false,
        }
    }

    pub fn outer_effect(&self, now: u64) -> (effect: LightEffect)
        requires
            self.wf(),
            self.outer_tellable(now),
        ensures
            effect == self.outer_at(now),
    {
        match self.role {
            Role::Central => {
                if self.shows_host_notice(now) {
                    LightEffect::Solid(self.profile_color())
                } else if self.ble_advertising && self.is_within(
                    self.ble_since,
                    now,
                    ACTIVITY_SECS,
                ) {
                    LightEffect::Breath(self.profile_color())
                } else if self.caps_lock {
                    LightEffect::Solid(Grb::amber())
                } else {
                    LightEffect::Off
                }
            },
            Role::Peripheral => {
                if self.peer_connected {
                    if self.is_within(self.peer_since, now, NOTICE_SECS) {
                        LightEffect::Solid(Grb::blue())
                    } else {
                        LightEffect::Off
                    }
                } else if self.is_within(self.peer_since, now, ACTIVITY_SECS) {
                    LightEffect::Breath(Grb::blue())
                } else {
                    LightEffect::Off
                }
            },
        }
    }

    /// Whether both effects can be told at `now`.
    pub fn can_tell_effects(&self, now: u64) -> (yes: bool)
        ensures
            yes == self.effects_tellable(now),
    {
        let inner: bool = if self.charging {
            !self.battery_at_least(BATTERY_FULL) || self.charge_since <= now
        } else {
            self.role == Role::Peripheral || self.low_blinking(now) || self.peer_since <= now
        };
        let outer: bool = match self.role {
            Role::Central => {
                !(self.ble_connected || self.ble_advertising) || self.ble_since <= now
            },
            Role::Peripheral => self.peer_since <= now,
        };
        inner && outer
    }
}

} // verus!
