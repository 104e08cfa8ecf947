use cornix_leds::{BleState, Event, Role, Ws2812Indicator};

const HZ: u64 = 32_768;

fn central() -> Ws2812Indicator {
    let mut lights = Ws2812Indicator::new_at(Role::Central, HZ, 100);
    lights.pending = false;
    lights
}

fn peripheral() -> Ws2812Indicator {
    let mut lights = Ws2812Indicator::new_at(Role::Peripheral, HZ, 100);
    lights.pending = false;
    lights
}

#[test]
fn lights_start_dark_and_pending() {
    let lights = Ws2812Indicator::new_at(Role::Peripheral, HZ, 100);
    assert_eq!(lights.role, Role::Peripheral);
    assert_eq!(lights.hz, HZ);
    assert_eq!(lights.battery, None);
    assert_eq!(lights.low_alert_until, 100);
    assert_eq!(lights.low_next_alert, 100);
    assert!(lights.pending);
    assert!(lights.last.is_none());
}

#[test]
fn charging_is_stamped_when_it_changes() {
    let mut lights = central();
    lights.process_event_at(Event::ChargingState(false), 200);
    assert_eq!((lights.charge_since, lights.pending), (100, false));
    lights.process_event_at(Event::ChargingState(true), 300);
    assert_eq!((lights.charging, lights.charge_since, lights.pending), (true, 300, true));
    lights.process_event_at(Event::ChargingState(true), 400);
    assert_eq!(lights.charge_since, 300);
}

#[test]
fn full_level_is_stamped_once_while_charging() {
    let mut lights = central();
    lights.process_event_at(Event::Battery(96), 200);
    assert_eq!((lights.battery, lights.charge_since), (Some(96), 100));
    lights.process_event_at(Event::ChargingState(true), 300);
    lights.process_event_at(Event::Battery(94), 400);
    assert_eq!(lights.charge_since, 300);
    lights.process_event_at(Event::Battery(95), 500);
    assert_eq!(lights.charge_since, 500);
    lights.process_event_at(Event::Battery(97), 600);
    assert_eq!(lights.charge_since, 500);
    assert!(lights.pending);
}

#[test]
fn battery_thresholds_include_their_level() {
    let mut lights = central();
    assert!(!lights.battery_at_least(0));
    assert!(!lights.battery_at_most(100));
    lights.set_battery_level(20, 200);
    assert!(lights.battery_at_least(20));
    assert!(!lights.battery_at_least(21));
    assert!(lights.battery_at_most(20));
    assert!(!lights.battery_at_most(19));
}

#[test]
fn each_half_hears_of_the_other() {
    let mut lights = central();
    lights.process_event_at(Event::SplitCentral(true), 200);
    assert!(!lights.peer_connected && !lights.pending);
    lights.process_event_at(Event::SplitPeripheral(0, true), 300);
    assert_eq!((lights.peer_connected, lights.peer_since, lights.pending), (true, 300, true));

    let mut lights = peripheral();
    lights.process_event_at(Event::SplitPeripheral(0, true), 200);
    assert!(!lights.peer_connected && !lights.pending);
    lights.process_event_at(Event::SplitCentral(true), 300);
    assert_eq!((lights.peer_connected, lights.peer_since, lights.pending), (true, 300, true));
    lights.process_event_at(Event::SplitCentral(true), 400);
    assert_eq!(lights.peer_since, 300);
}

#[test]
fn link_state_is_connected_or_advertising_or_neither() {
    let mut lights = central();
    lights.process_event_at(Event::BleState(1, BleState::Advertising), 200);
    assert_eq!((lights.ble_profile, lights.ble_since), (1, 200));
    assert_eq!(lights.profile_since, Some(200));
    assert!(lights.ble_advertising && !lights.ble_connected);
    lights.process_event_at(Event::BleState(1, BleState::Connected), 300);
    assert!(lights.ble_connected && !lights.ble_advertising);
    assert_eq!((lights.ble_since, lights.profile_since), (300, Some(200)));
    lights.process_event_at(Event::BleState(1, BleState::Connected), 400);
    assert_eq!(lights.ble_since, 300);
    lights.process_event_at(Event::BleState(2, BleState::Connected), 500);
    assert_eq!((lights.ble_profile, lights.ble_since), (2, 500));
    lights.process_event_at(Event::BleState(2, BleState::Inactive), 600);
    assert!(!lights.ble_connected && !lights.ble_advertising);
    assert_eq!(lights.ble_since, 600);
}

#[test]
fn profile_switch_restarts_the_notice() {
    let mut lights = central();
    lights.process_event_at(Event::BleProfile(0), 200);
    assert_eq!((lights.ble_since, lights.pending), (100, false));
    assert_eq!(lights.profile_since, None);
    lights.process_event_at(Event::BleProfile(3), 300);
    assert_eq!((lights.ble_profile, lights.ble_since, lights.pending), (3, 300, true));
    assert_eq!(lights.profile_since, Some(300));
}

#[test]
fn peripheral_half_ignores_the_host() {
    let mut lights = peripheral();
    lights.process_event_at(Event::BleState(2, BleState::Connected), 200);
    lights.process_event_at(Event::BleProfile(2), 200);
    lights.process_event_at(Event::KeyboardIndicator(0x02), 200);
    assert_eq!(lights.ble_profile, 0);
    assert!(!lights.ble_connected && !lights.caps_lock && !lights.pending);
}

#[test]
fn caps_lock_is_taken_in_by_the_central_half() {
    let mut lights = central();
    lights.process_event_at(Event::KeyboardIndicator(0x00), 200);
    assert!(!lights.pending);
    lights.process_event_at(Event::KeyboardIndicator(0x02), 200);
    assert!(lights.caps_lock && lights.pending);
}

#[test]
fn caps_lock_is_bit_one_of_the_led_report() {
    let mut lights = central();
    for report in 0..=255u8 {
        lights.process_event_at(Event::KeyboardIndicator(report), 200);
        assert_eq!(lights.caps_lock, report & 0x02 != 0);
    }
}

#[test]
fn waking_restarts_the_notices_and_falling_asleep_does_not() {
    let mut lights = central();
    lights.process_event_at(Event::Sleep(true), 200);
    assert!(lights.sleeping && lights.pending);
    assert_eq!((lights.ble_since, lights.peer_since), (100, 100));
    lights.process_event_at(Event::Sleep(false), 300);
    assert!(!lights.sleeping);
    assert_eq!((lights.ble_since, lights.peer_since, lights.charge_since), (300, 300, 100));
    lights.process_event_at(Event::Sleep(false), 400);
    assert_eq!(lights.ble_since, 300);
}

#[test]
fn other_events_change_nothing() {
    let mut lights = central();
    lights.process_event_at(Event::Other, 200);
    assert!(!lights.pending);
    assert_eq!(lights.ble_since, 100);
}
