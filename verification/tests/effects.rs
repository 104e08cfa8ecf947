use cornix_leds::color::{Grb, LightEffect};
use cornix_leds::{BleState, Event, Role, Ws2812Indicator};

const HZ: u64 = 32_768;
const T0: u64 = 10 * HZ;

fn lights(role: Role, events: &[Event]) -> Ws2812Indicator {
    let mut lights = Ws2812Indicator::new_at(role, HZ, 0);
    for event in events {
        lights.process_event_at(*event, T0);
    }
    lights
}

#[test]
fn profiles_have_their_colors() {
    let colors = [Grb::red(), Grb::green(), Grb::blue(), Grb::magenta(), Grb::cyan(), Grb::cyan()];
    for profile in 0..6u8 {
        let lights = lights(Role::Central, &[Event::BleProfile(profile)]);
        assert_eq!(lights.profile_color(), colors[profile as usize]);
    }
}

#[test]
fn connection_shows_for_three_seconds_then_caps_lock_is_back() {
    let lights = lights(
        Role::Central,
        &[
            Event::KeyboardIndicator(0x02),
            Event::BleState(3, BleState::Connected),
        ],
    );
    assert_eq!(lights.outer_effect(T0), LightEffect::Solid(Grb::magenta()));
    assert_eq!(lights.outer_effect(T0 + 3 * HZ - 1), LightEffect::Solid(Grb::magenta()));
    assert_eq!(lights.outer_effect(T0 + 3 * HZ), LightEffect::Solid(Grb::amber()));
}

#[test]
fn advertising_breathes_for_a_minute() {
    let lights = lights(Role::Central, &[Event::BleState(0, BleState::Advertising)]);
    assert_eq!(lights.outer_effect(T0), LightEffect::Breath(Grb::red()));
    assert_eq!(lights.outer_effect(T0 + 60 * HZ - 1), LightEffect::Breath(Grb::red()));
    assert_eq!(lights.outer_effect(T0 + 60 * HZ), LightEffect::Off);
}

#[test]
fn advertising_another_profile_shows_its_color_first() {
    let lights = lights(Role::Central, &[Event::BleState(1, BleState::Advertising)]);
    assert_eq!(lights.outer_effect(T0), LightEffect::Solid(Grb::green()));
    assert_eq!(lights.outer_effect(T0 + 3 * HZ - 1), LightEffect::Solid(Grb::green()));
    assert_eq!(lights.outer_effect(T0 + 3 * HZ), LightEffect::Breath(Grb::green()));
    assert_eq!(lights.outer_effect(T0 + 60 * HZ - 1), LightEffect::Breath(Grb::green()));
    assert_eq!(lights.outer_effect(T0 + 60 * HZ), LightEffect::Off);
}

#[test]
fn profile_switch_without_a_link_shows_for_three_seconds() {
    let mut lights = lights(Role::Central, &[Event::BleProfile(4)]);
    assert_eq!(lights.outer_effect(T0), LightEffect::Solid(Grb::cyan()));
    assert_eq!(lights.outer_effect(T0 + 3 * HZ - 1), LightEffect::Solid(Grb::cyan()));
    assert_eq!(lights.outer_effect(T0 + 3 * HZ), LightEffect::Off);
    lights.process_event_at(Event::KeyboardIndicator(0x02), T0);
    assert_eq!(lights.outer_effect(T0 + HZ), LightEffect::Solid(Grb::cyan()));
    assert_eq!(lights.outer_effect(T0 + 3 * HZ), LightEffect::Solid(Grb::amber()));
}

#[test]
fn profile_switch_while_advertising_shows_before_the_breath() {
    let mut lights = lights(Role::Central, &[Event::BleState(0, BleState::Advertising)]);
    let switched = T0 + 50 * HZ;
    lights.process_event_at(Event::BleProfile(3), switched);
    assert_eq!(lights.outer_effect(switched), LightEffect::Solid(Grb::magenta()));
    assert_eq!(lights.outer_effect(switched + 3 * HZ), LightEffect::Breath(Grb::magenta()));
    assert_eq!(lights.outer_effect(switched + 60 * HZ), LightEffect::Off);
}

#[test]
fn link_loss_does_not_cut_a_profile_notice() {
    let mut lights = lights(Role::Central, &[Event::BleProfile(2)]);
    lights.process_event_at(Event::BleState(2, BleState::Advertising), T0 + HZ);
    assert_eq!(lights.outer_effect(T0 + 3 * HZ - 1), LightEffect::Solid(Grb::blue()));
    assert_eq!(lights.outer_effect(T0 + 3 * HZ), LightEffect::Breath(Grb::blue()));
    assert_eq!(lights.outer_effect(T0 + 61 * HZ), LightEffect::Off);
}

#[test]
fn profile_switch_on_a_live_link_shows_again() {
    let mut lights = lights(Role::Central, &[Event::BleState(0, BleState::Connected)]);
    lights.process_event_at(Event::BleProfile(2), T0 + 100 * HZ);
    assert_eq!(lights.outer_effect(T0 + 100 * HZ), LightEffect::Solid(Grb::blue()));
    assert_eq!(lights.outer_effect(T0 + 103 * HZ), LightEffect::Off);
}

#[test]
fn central_shows_the_other_half_on_the_inner_led() {
    let mut lights = lights(Role::Central, &[Event::SplitPeripheral(0, true)]);
    assert_eq!(lights.inner_effect(T0 + 3 * HZ - 1), LightEffect::Solid(Grb::blue()));
    assert_eq!(lights.inner_effect(T0 + 3 * HZ), LightEffect::Off);
    lights.process_event_at(Event::SplitPeripheral(0, false), T0 + 10 * HZ);
    assert_eq!(lights.inner_effect(T0 + 70 * HZ - 1), LightEffect::Breath(Grb::blue()));
    assert_eq!(lights.inner_effect(T0 + 70 * HZ), LightEffect::Off);
    assert_eq!(lights.outer_effect(T0 + 10 * HZ), LightEffect::Off);
}

#[test]
fn peripheral_shows_the_other_half_on_the_outer_led() {
    let mut lights = lights(Role::Peripheral, &[Event::SplitCentral(true)]);
    assert_eq!(lights.outer_effect(T0 + 3 * HZ - 1), LightEffect::Solid(Grb::blue()));
    assert_eq!(lights.outer_effect(T0 + 3 * HZ), LightEffect::Off);
    lights.process_event_at(Event::SplitCentral(false), T0 + 10 * HZ);
    assert_eq!(lights.outer_effect(T0 + 70 * HZ - 1), LightEffect::Breath(Grb::blue()));
    assert_eq!(lights.outer_effect(T0 + 70 * HZ), LightEffect::Off);
    assert_eq!(lights.inner_effect(T0 + 10 * HZ), LightEffect::Off);
}

#[test]
fn charging_comes_before_everything_else_on_the_inner_led() {
    let mut lights = lights(Role::Central, &[Event::Battery(15), Event::ChargingState(true)]);
    lights.low_alert_until = T0 + 5 * HZ;
    lights.low_next_alert = T0 + 305 * HZ;
    assert_eq!(lights.inner_effect(T0), LightEffect::Breath(Grb::green()));
    lights.process_event_at(Event::Battery(95), T0 + HZ);
    assert_eq!(lights.inner_effect(T0 + 4 * HZ - 1), LightEffect::Solid(Grb::green()));
    assert_eq!(lights.inner_effect(T0 + 4 * HZ), LightEffect::Off);
}

#[test]
fn unknown_level_counts_as_not_full() {
    let lights = lights(Role::Peripheral, &[Event::ChargingState(true)]);
    assert_eq!(lights.inner_effect(T0 + 1000 * HZ), LightEffect::Breath(Grb::green()));
}

#[test]
fn low_battery_comes_before_the_other_half() {
    let mut lights = lights(Role::Central, &[Event::Battery(20)]);
    lights.refresh_low_battery(T0);
    assert!(lights.low_blinking(T0));
    assert_eq!(lights.inner_effect(T0), LightEffect::LowBattery);
    assert_eq!(lights.inner_effect(T0 + 5 * HZ - 1), LightEffect::LowBattery);
    assert_eq!(lights.inner_effect(T0 + 5 * HZ), LightEffect::Breath(Grb::blue()));
}

#[test]
fn effects_have_their_colors() {
    let lights = lights(Role::Central, &[]);
    let blue = Grb::blue();
    assert_eq!(lights.effect_color(LightEffect::Off, T0), Grb::off());
    assert_eq!(lights.effect_color(LightEffect::Solid(blue), T0), blue);
    // 1.5 s into a breath of 3 s it is at its brightest.
    assert_eq!(lights.effect_color(LightEffect::Breath(blue), 3 * HZ + HZ * 3 / 2), blue);
    assert_eq!(lights.effect_color(LightEffect::Breath(blue), 6 * HZ), Grb::off());
    assert_eq!(lights.breath_level(HZ * 3 / 4), 63);
    assert_eq!(lights.breath_color(blue, HZ * 3 / 4), Grb { g: 0, r: 0, b: 4 });
    // Twelve seconds are ten blink periods.
    assert_eq!(lights.effect_color(LightEffect::LowBattery, 12 * HZ), Grb::red());
    assert!(lights.low_blink_on(12 * HZ + HZ / 2));
    assert!(!lights.low_blink_on(12 * HZ + HZ / 4));
    assert_eq!(lights.effect_color(LightEffect::LowBattery, 13 * HZ), Grb::off());
}

#[test]
fn stamps_of_the_future_cannot_be_told() {
    let mut lights = lights(Role::Central, &[Event::BleState(0, BleState::Connected)]);
    assert!(lights.can_tell_effects(T0));
    assert!(!lights.can_tell_effects(T0 - 1));
    lights.process_event_at(Event::BleState(0, BleState::Inactive), T0);
    assert!(lights.can_tell_effects(T0 - 1));
}

#[test]
fn profile_switch_of_the_future_does_not_show() {
    let mut lights = lights(Role::Central, &[]);
    lights.process_event_at(Event::BleProfile(1), T0 + 5);
    assert!(lights.can_tell_effects(T0 + 4));
    assert_eq!(lights.outer_effect(T0 + 4), LightEffect::Off);
    assert_eq!(lights.outer_effect(T0 + 5), LightEffect::Solid(Grb::green()));
    lights.process_event_at(Event::KeyboardIndicator(0x02), T0);
    assert_eq!(lights.outer_effect(T0 + 4), LightEffect::Solid(Grb::amber()));
    // The age of an advertising link is still asked for.
    lights.process_event_at(Event::BleState(1, BleState::Advertising), T0 + 5);
    assert!(!lights.can_tell_effects(T0 + 4));
}

#[test]
fn lights_are_out_after_a_quiet_minute() {
    for role in [Role::Central, Role::Peripheral] {
        let lights = lights(role, &[Event::Battery(50), Event::BleState(0, BleState::Connected)]);
        assert_eq!(lights.inner_effect(T0 + 60 * HZ), LightEffect::Off);
        assert_eq!(lights.outer_effect(T0 + 60 * HZ), LightEffect::Off);
    }
}
