//! What the keyboard tells its status lights.

use vstd::prelude::*;

verus! {

/// Which half of the keyboard the lights are on.
#[derive(Clone, Copy, PartialEq, Eq, Structural, Debug)]
pub enum Role {
    Central,
    Peripheral,
}

/// State of the Bluetooth link to the host.
#[derive(Clone, Copy, PartialEq, Eq, Structural, Debug)]
pub enum BleState {
    Advertising,
    Connected,
    /// The link is not used, in USB mode or while asleep.
    Inactive,
}

/// A message to the status lights.
#[derive(Clone, Copy, PartialEq, Eq, Structural, Debug)]
pub enum Event {
    /// Battery level in percent.
    Battery(u8),
    /// Whether the battery charges.
    ChargingState(bool),
    /// On the central half: whether a peripheral half is connected.
    SplitPeripheral(usize, bool),
    /// On a peripheral half: whether the central half is connected.
    SplitCentral(bool),
    /// Bluetooth profile and the state of its link.
    BleState(u8, BleState),
    /// Bluetooth profile.
    BleProfile(u8),
    /// LED report of the host, as the byte that it sends.
    KeyboardIndicator(u8),
    /// Whether the keyboard sleeps.
    Sleep(bool),
    /// Anything that the lights do not show.
    Other,
}

/// Whether an LED report of the host lights Caps Lock: bit 1 tells.
pub open spec fn lights_caps_lock(report: u8) -> bool {
    (report / 2) % 2 == 1
}

/// Whether an LED report lights Caps Lock: `caps_lock` of
/// `rmk::types::led_indicator::LedIndicator`, on the indicator that
/// `from_bits` makes of the report. Claims that it is the report's bit 1.
#[verifier::external_body]
pub(crate) fn caps_lock(report: u8) -> (on: bool)
    ensures
        on == lights_caps_lock(report),
{
    rmk::types::led_indicator::LedIndicator::from_bits(report).caps_lock()
}

} // verus!
