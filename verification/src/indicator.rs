//! The state of one half's status lights and what it shows at a given time.

use vstd::prelude::*;

use crate::battery::BATTERY_FULL;
use crate::clock;
use crate::color::Grb;
use crate::event;
use crate::event::{BleState, Event, Role};

verus! {

/// The status lights of one half. Instants are tick counts of a clock that
/// runs at `hz`.
#[derive(Clone, Copy)]
pub struct Ws2812Indicator {
    pub role: Role,
    pub hz: u64,
    pub battery: Option<u8>,
    pub charging: bool,
    pub ble_profile: u8,
    pub ble_connected: bool,
    pub ble_advertising: bool,
    pub peer_connected: bool,
    pub caps_lock: bool,
    pub sleeping: bool,
    pub ble_since: u64,
    pub profile_since: Option<u64>,
    pub peer_since: u64,
    pub charge_since: u64,
    pub low_alert_until: u64,
    pub low_next_alert: u64,
    pub last_battery_sample: Option<u64>,
    pub cur_inner: Grb,
    pub cur_outer: Grb,
    pub tgt_inner: Grb,
    pub tgt_outer: Grb,
    pub inner_active: bool,
    pub outer_active: bool,
    pub pending: bool,
    pub rail_on: bool,
    pub last: Option<(Grb, Grb)>,
}

/// Whether either color lights its LED.
pub open spec fn lit(inner: Grb, outer: Grb) -> bool {
    inner != Grb::off() || outer != Grb::off()
}

impl Ws2812Indicator {
    // Invariant.
    /// The power rail is on exactly if the last frame sent was not black.
    pub open spec fn rail_follows_frame(self) -> bool {
        match self.last {
            Some((inner, outer)) => self.rail_on == lit(inner, outer),
            None => !self.rail_on,
        }
    }

    /// The link to the host is never both up and advertising, an alert ends
    /// before the next one, and the rail follows the frames.
    pub open spec fn wf(self) -> bool {
        &&& clock::valid_rate(self.hz)
        &&& !(self.ble_connected && self.ble_advertising)
        &&& self.low_alert_until <= self.low_next_alert
        &&& self.rail_follows_frame()
    }

    // Construction.
    /// The lights as they start at `now`: dark, with nothing known yet.
    pub open spec fn initial(role: Role, hz: u64, now: u64) -> Self {
        Ws2812Indicator {
            role,
            hz,
            battery: None,
            charging: false,
            ble_profile: 0,
            ble_connected: false,
            ble_advertising: false,
            peer_connected: false,
            caps_lock: false,
            sleeping: false,
            ble_since: now,
            profile_since: None,
            peer_since: now,
            charge_since: now,
            low_alert_until: now,
            low_next_alert: now,
            last_battery_sample: None,
            cur_inner: Grb::off(),
            cur_outer: Grb::off(),
            tgt_inner: Grb::off(),
            tgt_outer: Grb::off(),
            inner_active: false,
            outer_active: false,
            pending: true,
            rail_on: false,
            last: None,
        }
    }

    /// The lights of a half that starts now.
    pub fn new(role: Role) -> (lights: Self)
        ensures
            lights.wf(),
            lights.hz == clock::duration_ticks(1),
            lights == Self::initial(role, lights.hz, lights.ble_since),
    {
        let hz: u64 = clock::tick_rate();
        let now: u64 = clock::now();
        Self::new_at(role, hz, now)
    }

    /// The lights of a half that starts at `now`, by a clock that runs at `hz`.
    pub fn new_at(role: Role, hz: u64, now: u64) -> (lights: Self)
        requires
            clock::valid_rate(hz),
        ensures
            lights.wf(),
            lights == Self::initial(role, hz, now),
    {
        Ws2812Indicator {
            role,
            hz,
            battery: None,
            charging: false,
            ble_profile: 0,
            ble_connected: false,
            ble_advertising: false,
            peer_connected: false,
            caps_lock: false,
            sleeping: false,
            ble_since: now,
            profile_since: None,
            peer_since: now,
            charge_since: now,
            low_alert_until: now,
            low_next_alert: now,
            last_battery_sample: None,
            cur_inner: Grb::off(),
            cur_outer: Grb::off(),
            tgt_inner: Grb::off(),
            tgt_outer: Grb::off(),
            inner_active: false,
            outer_active: false,
            pending: true,
            rail_on: false,
            last: None,
        }
    }

    // Battery thresholds.
    pub open spec fn at_least(self, threshold: u8) -> bool {
        self.battery matches Some(level) && level >= threshold
    }

    pub open spec fn at_most(self, threshold: u8) -> bool {
        self.battery matches Some(level) && level <= threshold
    }

    pub fn battery_at_least(&self, threshold: u8) -> (yes: bool)
        ensures
            yes == self.at_least(threshold),
    {
        match self.battery {
            Some(level) => level >= threshold,
            None => false,
        }
    }

    pub fn battery_at_most(&self, threshold: u8) -> (yes: bool)
        ensures
            yes == self.at_most(threshold),
    {
        match self.battery {
            Some(level) => level <= threshold,
            None => false,
        }
    }

    // State changes.
    pub open spec fn with_charging(self, charging: bool, now: u64) -> Self {
        if charging == self.charging {
            self
        } else {
            Ws2812Indicator { charging, charge_since: now, pending: true, ..self }
        }
    }

    /// Reaching the full level while charging restarts the charge notice.
    pub open spec fn with_battery_level(self, level: u8, now: u64) -> Self {
        let reached = self.charging && level >= BATTERY_FULL && !self.at_least(BATTERY_FULL);
        Ws2812Indicator {
            battery: Some(level),
            charge_since: if reached {
                now
            } else {
                self.charge_since
            },
            pending: true,
            ..self
        }
    }

    pub open spec fn with_peer_connected(self, connected: bool, now: u64) -> Self {
        if connected == self.peer_connected {
            self
        } else {
            Ws2812Indicator { peer_connected: connected, peer_since: now, pending: true, ..self }
        }
    }

    pub open spec fn with_caps_lock(self, enabled: bool) -> Self {
        if enabled == self.caps_lock {
            self
        } else {
            Ws2812Indicator { caps_lock: enabled, pending: true, ..self }
        }
    }

    /// The link state as the two flags and the profile record it.
    pub open spec fn ble_is(self, profile: u8, state: BleState) -> bool {
        &&& self.ble_profile == profile
        &&& self.ble_connected == (state is Connected)
        &&& self.ble_advertising == (state is Advertising)
    }

    /// A change of the link or the profile restarts the connection notice, a
    /// change of the profile the profile notice too.
    pub open spec fn with_ble_state(self, profile: u8, state: BleState, now: u64) -> Self {
        if self.ble_is(profile, state) {
            self
        } else {
            Ws2812Indicator {
                ble_profile: profile,
                ble_connected: state is Connected,
                ble_advertising: state is Advertising,
                ble_since: now,
                profile_since: if profile == self.ble_profile {
                    self.profile_since
                } else {
                    Some(now)
                },
                pending: true,
                ..self
            }
        }
    }

    pub open spec fn with_ble_profile(self, profile: u8, now: u64) -> Self {
        if profile == self.ble_profile {
            self
        } else {
            Ws2812Indicator {
                ble_profile: profile,
                ble_since: now,
                profile_since: Some(now),
                pending: true,
                ..self
            }
        }
    }

    /// Waking up restarts the connection notices.
    pub open spec fn with_sleeping(self, sleeping: bool, now: u64) -> Self {
        if sleeping == self.sleeping {
            self
        } else if sleeping {
            Ws2812Indicator { sleeping, pending: true, ..self }
        } else {
            Ws2812Indicator { sleeping, ble_since: now, peer_since: now, pending: true, ..self }
        }
    }

    pub fn set_charging(&mut self, charging: bool, now: u64)
        ensures
            *final(self) == old(self).with_charging(charging, now),
            old(self).wf() ==> final(self).wf(),
    {
        if charging != self.charging {
            self.charging = charging;
            self.charge_since = now;
            self.pending = true;
        }
    }

    pub fn set_battery_level(&mut self, level: u8, now: u64)
        ensures
            *final(self) == old(self).with_battery_level(level, now),
            old(self).wf() ==> final(self).wf(),
    {
        let was_full: bool = self.battery_at_least(BATTERY_FULL);
        self.battery = Some(level);
        if self.charging && level >= BATTERY_FULL && !was_full {
            self.charge_since = now;
        }
        self.pending = true;
    }

    pub fn set_peer_connected(&mut self, connected: bool, now: u64)
        ensures
            *final(self) == old(self).with_peer_connected(connected, now),
            old(self).wf() ==> final(self).wf(),
    {
        if connected != self.peer_connected {
            self.peer_since = now;
            self.peer_connected = connected;
            self.pending = true;
        }
    }

    pub fn set_caps_lock(&mut self, enabled: bool)
        ensures
            *final(self) == old(self).with_caps_lock(enabled),
            old(self).wf() ==> final(self).wf(),
    {
        if enabled != self.caps_lock {
            self.caps_lock = enabled;
            self.pending = true;
        }
    }

    pub fn set_ble_state(&mut self, profile: u8, state: BleState, now: u64)
        ensures
            *final(self) == old(self).with_ble_state(profile, state, now),
            old(self).wf() ==> final(self).wf(),
    {
        let connected: bool = matches!(state, BleState::Connected);
        let advertising: bool = matches!(state, BleState::Advertising);
        let changed: bool = connected != self.ble_connected || advertising != self.ble_advertising
            || profile != self.ble_profile;
        if changed {
            self.ble_since = now;
            self.pending = true;
        }
        if profile != self.ble_profile {
            self.profile_since = Some(now);
        }
        self.ble_profile = profile;
        self.ble_connected = connected;
        self.ble_advertising = advertising;
    }

    pub fn set_ble_profile(&mut self, profile: u8, now: u64)
        ensures
            *final(self) == old(self).with_ble_profile(profile, now),
            old(self).wf() ==> final(self).wf(),
    {
        if profile != self.ble_profile {
            self.ble_profile = profile;
            self.ble_since = now;
            self.profile_since = Some(now);
            self.pending = true;
        }
    }

    pub fn set_sleeping(&mut self, sleeping: bool, now: u64)
        ensures
            *final(self) == old(self).with_sleeping(sleeping, now),
            old(self).wf() ==> final(self).wf(),
    {
        if self.sleeping != sleeping {
            if !sleeping {
                self.ble_since = now;
                self.peer_since = now;
            }
            self.sleeping = sleeping;
            self.pending = true;
        }
    }

    /// The state after an event at `now`. Events that concern the other half's
    /// role change nothing.
    pub open spec fn after_event(self, event: Event, now: u64) -> Self {
        match event {
            Event::Battery(level) => self.with_battery_level(level, now),
            Event::ChargingState(charging) => self.with_charging(charging, now),
            Event::SplitPeripheral(_, connected) => if self.role == Role::Central {
                self.with_peer_connected(connected, now)
            } else {
                self
            },
            Event::SplitCentral(connected) => if self.role == Role::Peripheral {
                self.with_peer_connected(connected, now)
            } else {
                self
            },
            Event::BleState(profile, state) => if self.role == Role::Central {
                self.with_ble_state(profile, state, now)
            } else {
                self
            },
            Event::BleProfile(profile) => if self.role == Role::Central {
                self.with_ble_profile(profile, now)
            } else {
                self
            },
            Event::KeyboardIndicator(report) => if self.role == Role::Central {
                self.with_caps_lock(event::lights_caps_lock(report))
            } else {
                self
            },
            Event::Sleep(sleeping) => self.with_sleeping(sleeping, now),
            Event::Other => self,
        }
    }

    /// Takes in an event that happens now.
    pub fn process_event(&mut self, event: Event)
        requires
            old(self).wf(),
        ensures
            final(self).wf(),
            exists|now: u64| *final(self) == #[trigger] old(self).after_event(event, now),
    {
        let now: u64 = clock::now();
        self.process_event_at(event, now);
    }

    /// Takes in an event that happens at `now`.
    pub fn process_event_at(&mut self, event: Event, now: u64)
        requires
            old(self).wf(),
        ensures
            final(self).wf(),
            *final(self) == old(self).after_event(event, now),
    {
        match event {
            Event::Battery(level) => self.set_battery_level(level, now),
            Event::ChargingState(charging) => self.set_charging(charging, now),
            Event::SplitPeripheral(_, connected) => {
                if self.role == Role::Central {
                    self.set_peer_connected(connected, now);
                }
            },
            Event::SplitCentral(connected) => {
                if self.role == Role::Peripheral {
                    self.set_peer_connected(connected, now);
                }
            },
            Event::BleState(profile, state) => {
                if self.role == Role::Central {
                    self.set_ble_state(profile, state, now);
                }
            },
            Event::BleProfile(profile) => {
                if self.role == Role::Central {
                    self.set_ble_profile(profile, now);
                }
            },
            Event::KeyboardIndicator(report) => {
                if self.role == Role::Central {
                    self.set_caps_lock(event::caps_lock(report));
                }
            },
            Event::Sleep(sleeping) => self.set_sleeping(sleeping, now),
            Event::Other => {},
        }
    }
}

} // verus!
