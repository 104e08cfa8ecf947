//! One refresh of the lights: battery, low-battery alert, fade and frame.

use vstd::prelude::*;

use crate::battery;
use crate::battery::BATTERY_LOW;
use crate::clock;
use crate::clock::ClockError;
use crate::color;
use crate::color::{Grb, LightEffect, FADE_STEP};
use crate::frame;
use crate::frame::SEQ_LEN;
use crate::indicator;
use crate::indicator::Ws2812Indicator;

verus! {

/// How long a low-battery alert blinks, in seconds.
pub const LOW_ALERT_SECS: u64 = 5;

/// How long the lights stay quiet between two low-battery alerts, in seconds.
pub const LOW_QUIET_SECS: u64 = 300;

/// Time between two battery samples, in seconds.
pub const BATTERY_SAMPLE_SECS: u64 = 30;

/// How long the power rail needs to settle, in milliseconds.
pub const RAIL_SETTLE_MS: u64 = 5;

/// How long a frame takes to send, in milliseconds.
pub const FRAME_MS: u64 = 1;

/// Time between two refreshes while the lights change, in milliseconds.
pub const ANIM_INTERVAL_MS: u64 = 33;

/// Time between two refreshes while the lights rest, in milliseconds.
pub const IDLE_INTERVAL_MS: u64 = 1000;

/// What the hardware has to do to show a frame, in this order.
pub struct FrameTransfer {
    /// Switch the power rail of the LEDs on and let it settle.
    pub power_up: bool,
    /// Send these PWM words once.
    pub words: [u16; SEQ_LEN],
    /// Switch the power rail off.
    pub power_down: bool,
}

impl FrameTransfer {
    /// Shows `inner` and `outer`, with the rail as it was before.
    pub open spec fn shows(self, inner: Grb, outer: Grb, rail_on: bool) -> bool {
        &&& self.power_up == (indicator::lit(inner, outer) && !rail_on)
        &&& self.words@ == frame::frame_words(inner, outer)
        &&& self.power_down == !indicator::lit(inner, outer)
    }
}

impl Ws2812Indicator {
    // Battery samples.
    /// Whether the last sample lies long enough back at `now`.
    pub open spec fn sample_due_at(self, now: u64) -> bool {
        match self.last_battery_sample {
            None => true,
            Some(last) => now - last >= clock::secs_ticks(BATTERY_SAMPLE_SECS as int, self.hz),
        }
    }

    /// The state after a sample at `started`, if one is due: its time is
    /// recorded, and so is the level where there was a reading, at `now`.
    pub open spec fn with_sample(self, started: u64, sample: Option<i16>, now: u64) -> Self {
        let stamped = Ws2812Indicator { last_battery_sample: Some(started), ..self };
        if !self.sample_due_at(started) {
            self
        } else {
            match sample {
                None => stamped,
                Some(raw) => stamped.with_battery_level(battery::percent(raw as int) as u8, now),
            }
        }
    }

    pub fn sample_due(&self, now: u64) -> (due: bool)
        requires
            self.wf(),
        ensures
            due == self.sample_due_at(now),
    {
        match self.last_battery_sample {
            None => true,
            Some(last) => {
                let age: u64 = if now < last {
                    0
                } else {
                    now - last
                };
                age >= clock::from_secs(BATTERY_SAMPLE_SECS, self.hz)
            },
        }
    }

    /// Records a sample that was started at `started` and done at `now`, if
    /// one was due. `sample` is the ADC reading, where there is an ADC.
    pub fn sample_battery_if_due(&mut self, started: u64, sample: Option<i16>, now: u64)
        requires
            old(self).wf(),
        ensures
            final(self).wf(),
            *final(self) == old(self).with_sample(started, sample, now),
    {
        if !self.sample_due(started) {
            return ;
        }
        self.last_battery_sample = Some(started);
        if let Some(raw) = sample {
            self.set_battery_level(battery::battery_percent_from_adc(raw), now);
        }
    }

    // Low-battery alerts.
    /// Whether a low-battery alert starts at `now`.
    pub open spec fn alert_starts(self, now: u64) -> bool {
        self.at_most(BATTERY_LOW) && now >= self.low_next_alert
    }

    /// Whether the alert that starts at `now`, if one does, and the quiet time
    /// after it end before the clock does.
    pub open spec fn alert_fits(self, now: u64) -> bool {
        self.alert_starts(now) ==> now + clock::secs_ticks(
            LOW_ALERT_SECS + LOW_QUIET_SECS,
            self.hz,
        ) <= u64::MAX
    }

    /// The alert schedule brought up to `now`: while the battery is low, alerts
    /// follow each other with a quiet time in between; while it is not, the
    /// schedule stays armed, so that the next drop alerts at once.
    pub open spec fn with_alerts(self, now: u64) -> Self {
        if !self.at_most(BATTERY_LOW) {
            Ws2812Indicator { low_alert_until: now, low_next_alert: now, ..self }
        } else if self.alert_starts(now) {
            let until = now + clock::secs_ticks(LOW_ALERT_SECS as int, self.hz);
            let next = until + clock::secs_ticks(LOW_QUIET_SECS as int, self.hz);
            Ws2812Indicator { low_alert_until: until as u64, low_next_alert: next as u64, ..self }
        } else {
            self
        }
    }

    pub fn refresh_low_battery(&mut self, now: u64)
        requires
            old(self).wf(),
            old(self).alert_fits(now),
        ensures
            final(self).wf(),
            *final(self) == old(self).with_alerts(now),
    {
        if !self.battery_at_most(BATTERY_LOW) {
            self.low_alert_until = now;
            self.low_next_alert = now;
            return ;
        }
        if now >= self.low_next_alert {
            let alert: u64 = clock::from_secs(LOW_ALERT_SECS, self.hz);
            let quiet: u64 = clock::from_secs(LOW_QUIET_SECS, self.hz);
            self.low_alert_until = now + alert;
            self.low_next_alert = now + alert + quiet;
        }
    }

    /// Whether the alert that starts at `now`, if one does, fits the clock.
    pub fn can_schedule_alert(&self, now: u64) -> (yes: bool)
        requires
            self.wf(),
        ensures
            yes == self.alert_fits(now),
    {
        if self.battery_at_most(BATTERY_LOW) && now >= self.low_next_alert {
            now <= u64::MAX - clock::from_secs(LOW_ALERT_SECS + LOW_QUIET_SECS, self.hz)
        } else {
            true
        }
    }

    // Frames.
    /// The state after showing `inner` and `outer`.
    pub open spec fn rendered(self, inner: Grb, outer: Grb) -> Self {
        if self.last == Some((inner, outer)) {
            self
        } else {
            Ws2812Indicator {
                last: Some((inner, outer)),
                rail_on: indicator::lit(inner, outer),
                ..self
            }
        }
    }

    /// Decides how to show `inner` and `outer`; nothing is sent if the last
    /// frame shows them already.
    pub fn render(&mut self, inner: Grb, outer: Grb) -> (transfer: Option<FrameTransfer>)
        requires
            old(self).wf(),
        ensures
            final(self).wf(),
            *final(self) == old(self).rendered(inner, outer),
            transfer is None <==> old(self).last == Some((inner, outer)),
            transfer matches Some(t) ==> t.shows(inner, outer, old(self).rail_on),
    {
        let shown: bool = match self.last {
            Some((last_inner, last_outer)) => last_inner == inner && last_outer == outer,
            None => false,
        };
        if shown {
            return None;
        }
        self.last = Some((inner, outer));
        let any_on: bool = inner != Grb::off() || outer != Grb::off();
        let power_up: bool = any_on && !self.rail_on;
        if power_up {
            self.rail_on = true;
        }
        let mut words: [u16; SEQ_LEN] = [0x8000u16;88];
        frame::encode(&mut words, inner, outer);
        // The rail goes down only after a black frame, so that the last thing
        // to be seen is the end of the fade.
        if !any_on {
            self.rail_on = false;
        }
        Some(FrameTransfer { power_up, words, power_down: !any_on })
    }

    // Refresh.
    /// The state of an awake half after a refresh has taken in the USB power and
    /// a battery sample.
    pub open spec fn measured(
        self,
        started: u64,
        usb_present: bool,
        sample: Option<i16>,
        now: u64,
    ) -> Self {
        self.with_charging(usb_present, started).with_sample(started, sample, now)
    }

    /// The state of an awake half with the colors of its effects at `now` as
    /// the targets of the fade.
    pub open spec fn aimed(self, now: u64) -> Self {
        Ws2812Indicator {
            inner_active: self.inner_at(now).animated(),
            outer_active: self.outer_at(now).animated(),
            tgt_inner: self.color_at(self.inner_at(now), now),
            tgt_outer: self.color_at(self.outer_at(now), now),
            ..self
        }
    }

    /// The state with darkness as the target of the fade.
    pub open spec fn darkened(self) -> Self {
        Ws2812Indicator {
            inner_active: false,
            outer_active: false,
            tgt_inner: Grb::off(),
            tgt_outer: Grb::off(),
            ..self
        }
    }

    /// The state one step further in its fade.
    pub open spec fn stepped(self) -> Self {
        Ws2812Indicator {
            cur_inner: color::toward(self.cur_inner, self.tgt_inner, FADE_STEP),
            cur_outer: color::toward(self.cur_outer, self.tgt_outer, FADE_STEP),
            ..self
        }
    }

    /// The state after one step of its fade has been shown.
    pub open spec fn shown(self) -> Self {
        let next = self.stepped();
        Ws2812Indicator { pending: false, ..next.rendered(next.cur_inner, next.cur_outer) }
    }

    /// The state with the targets that a refresh sets.
    pub open spec fn retargeted(
        self,
        started: u64,
        usb_present: bool,
        sample: Option<i16>,
        now: u64,
    ) -> Self {
        if self.sleeping {
            self.darkened()
        } else {
            self.measured(started, usb_present, sample, now).with_alerts(started).aimed(now)
        }
    }

    /// The state after a refresh.
    pub open spec fn refreshed(
        self,
        started: u64,
        usb_present: bool,
        sample: Option<i16>,
        now: u64,
    ) -> Self {
        self.retargeted(started, usb_present, sample, now).shown()
    }

    /// What keeps a refresh from being done, if anything does.
    pub open spec fn refresh_fault(
        self,
        started: u64,
        usb_present: bool,
        sample: Option<i16>,
        now: u64,
    ) -> Option<ClockError> {
        let measured = self.measured(started, usb_present, sample, now);
        if self.sleeping {
            None
        } else if !measured.alert_fits(started) {
            Some(ClockError::Exhausted)
        } else if !measured.with_alerts(started).effects_tellable(now) {
            Some(ClockError::Backwards)
        } else {
            None
        }
    }

    /// Starts a refresh: the time, and whether the battery is to be sampled.
    pub fn begin_update(&self) -> (start: (u64, bool))
        requires
            self.wf(),
        ensures
            start.1 == (!self.sleeping && self.sample_due_at(start.0)),
    {
        let now: u64 = clock::now();
        (now, !self.sleeping && self.sample_due(now))
    }

    /// What a refresh that ends at `now` comes to: either it was not done, for
    /// a reason, and nothing has changed; or it was, and there is something to
    /// send exactly if the colors are not those of the last frame.
    pub open spec fn refresh_outcome(
        self,
        started: u64,
        usb_present: bool,
        sample: Option<i16>,
        now: u64,
        next: Self,
        result: Result<Option<FrameTransfer>, ClockError>,
    ) -> bool {
        match self.refresh_fault(started, usb_present, sample, now) {
            Some(error) => next == self && (result matches Err(e) && e == error),
            None => {
                &&& next == self.refreshed(started, usb_present, sample, now)
                &&& match result {
                    Err(_) => false,
                    Ok(None) => self.last == Some((next.cur_inner, next.cur_outer)),
                    Ok(Some(t)) => {
                        &&& self.last != Some((next.cur_inner, next.cur_outer))
                        &&& t.shows(next.cur_inner, next.cur_outer, self.rail_on)
                    },
                }
            },
        }
    }

    /// Finishes a refresh that was started at `started`, from the USB power
    /// and the battery sample read since: what to send to the LEDs, if
    /// anything. While the half sleeps, neither reading is looked at.
    pub fn update(&mut self, started: u64, usb_present: bool, sample: Option<i16>) -> (result:
        Result<Option<FrameTransfer>, ClockError>)
        requires
            old(self).wf(),
        ensures
            final(self).wf(),
            exists|now: u64| #[trigger]
                old(self).refresh_outcome(
                    started,
                    usb_present,
                    sample,
                    now,
                    *final(self),
                    result,
                ),
    {
        let now: u64 = clock::now();
        self.update_at(started, usb_present, sample, now)
    }

    /// Finishes at `now` a refresh that was started at `started`.
    pub fn update_at(
        &mut self,
        started: u64,
        usb_present: bool,
        sample: Option<i16>,
        now: u64,
    ) -> (result: Result<Option<FrameTransfer>, ClockError>)
        requires
            old(self).wf(),
        ensures
            final(self).wf(),
            old(self).refresh_outcome(started, usb_present, sample, now, *final(self), result),
    {
        match self.retarget(started, usb_present, sample, now) {
            Err(error) => {
                return Err(error);
            },
            Ok(()) => {},
        }
        Ok(self.show())
    }

    /// Steps the fade and decides how to show where it stands.
    #[verifier::rlimit(30)]
    fn show(&mut self) -> (transfer: Option<FrameTransfer>)
        requires
            old(self).wf(),
        ensures
            final(self).wf(),
            *final(self) == old(self).shown(),
            transfer is None <==> old(self).last == Some(
                (final(self).cur_inner, final(self).cur_outer),
            ),
            transfer matches Some(t) ==> t.shows(
                final(self).cur_inner,
                final(self).cur_outer,
                old(self).rail_on,
            ),
    {
        let inner: Grb = color::approach(self.cur_inner, self.tgt_inner, FADE_STEP);
        let outer: Grb = color::approach(self.cur_outer, self.tgt_outer, FADE_STEP);
        self.cur_inner = inner;
        self.cur_outer = outer;
        assert(*self == old(self).stepped());
        let transfer: Option<FrameTransfer> = self.render(inner, outer);
        self.pending = false;
        transfer
    }

    /// Makes the colors of the effects at `now` the targets of the fade.
    fn aim(&mut self, now: u64)
        requires
            old(self).wf(),
            old(self).effects_tellable(now),
        ensures
            final(self).wf(),
            *final(self) == old(self).aimed(now),
    {
        let inner: LightEffect = self.inner_effect(now);
        let outer: LightEffect = self.outer_effect(now);
        let tgt_inner: Grb = self.effect_color(inner, now);
        let tgt_outer: Grb = self.effect_color(outer, now);
        self.inner_active = inner.is_animated();
        self.outer_active = outer.is_animated();
        self.tgt_inner = tgt_inner;
        self.tgt_outer = tgt_outer;
    }

    /// Sets the targets of a refresh.
    fn retarget(&mut self, started: u64, usb_present: bool, sample: Option<i16>, now: u64) -> (result:
        Result<(), ClockError>)
        requires
            old(self).wf(),
        ensures
            final(self).wf(),
            match old(self).refresh_fault(started, usb_present, sample, now) {
                Some(error) => *final(self) == *old(self) && result == Err::<(), ClockError>(error),
                None => *final(self) == old(self).retargeted(started, usb_present, sample, now)
                    && result == Ok::<(), ClockError>(()),
            },
            final(self).last == old(self).last,
            final(self).rail_on == old(self).rail_on,
    {
        let mut next: Ws2812Indicator = *self;
        if next.sleeping {
            next.inner_active = false;
            next.outer_active = false;
            next.tgt_inner = Grb::off();
            next.tgt_outer = Grb::off();
        } else {
            next.set_charging(usb_present, started);
            next.sample_battery_if_due(started, sample, now);
            if !next.can_schedule_alert(started) {
                return Err(ClockError::Exhausted);
            }
            next.refresh_low_battery(started);
            if !next.can_tell_effects(now) {
                return Err(ClockError::Backwards);
            }
            next.aim(now);
        }
        *self = next;
        Ok(())
    }

    // Cadence.
    /// Whether the lights are about to change by themselves: an effect is
    /// animated, even where it is dark for the moment, or a fade is under way.
    pub open spec fn animating(self) -> bool {
        ||| self.inner_active
        ||| self.outer_active
        ||| self.cur_inner != self.tgt_inner
        ||| self.cur_outer != self.tgt_outer
    }

    pub fn is_animating(&self) -> (yes: bool)
        ensures
            yes == self.animating(),
    {
        self.inner_active || self.outer_active || self.cur_inner != self.tgt_inner || self.cur_outer
            != self.tgt_outer
    }
}

} // verus!
