use cornix_leds::clock::ClockError;
use cornix_leds::color::Grb;
use cornix_leds::frame::{encode, SEQ_LEN};
use cornix_leds::update::FrameTransfer;
use cornix_leds::{BleState, Event, Role, Ws2812Indicator};

const HZ: u64 = 32_768;

fn central() -> Ws2812Indicator {
    Ws2812Indicator::new_at(Role::Central, HZ, 0)
}

fn quiet(role: Role) -> Ws2812Indicator {
    let mut lights = Ws2812Indicator::new_at(role, HZ, 0);
    lights.battery = Some(50);
    lights
}

fn refresh(lights: &mut Ws2812Indicator, now: u64) -> Option<FrameTransfer> {
    match lights.update_at(now, false, None, now) {
        Ok(transfer) => transfer,
        Err(error) => panic!("refresh failed: {:?}", error),
    }
}

fn words(inner: Grb, outer: Grb) -> [u16; SEQ_LEN] {
    let mut buf = [0u16; SEQ_LEN];
    encode(&mut buf, inner, outer);
    buf
}

#[test]
fn frames_are_sent_once_and_power_follows_them() {
    let mut lights = central();
    let first = lights.render(Grb::off(), Grb::off()).unwrap();
    assert!(!first.power_up && first.power_down);
    assert!(first.words == words(Grb::off(), Grb::off()));
    assert!(lights.render(Grb::off(), Grb::off()).is_none());

    let lit = lights.render(Grb::off(), Grb::red()).unwrap();
    assert!(lit.power_up && !lit.power_down);
    assert!(lit.words == words(Grb::off(), Grb::red()));
    assert!(lights.rail_on);
    assert!(lights.render(Grb::off(), Grb::red()).is_none());

    let other = lights.render(Grb::blue(), Grb::red()).unwrap();
    assert!(!other.power_up && !other.power_down && lights.rail_on);

    let black = lights.render(Grb::off(), Grb::off()).unwrap();
    assert!(!black.power_up && black.power_down && !lights.rail_on);
    assert_eq!(lights.last, Some((Grb::off(), Grb::off())));
}

#[test]
fn samples_are_due_every_thirty_seconds() {
    let mut lights = central();
    assert!(lights.sample_due(0));
    lights.sample_battery_if_due(HZ, Some(3140), HZ);
    assert_eq!(lights.battery, Some(50));
    assert_eq!(lights.last_battery_sample, Some(HZ));
    assert!(!lights.sample_due(31 * HZ - 1));
    assert!(lights.sample_due(31 * HZ));
    assert!(!lights.sample_due(0));
    lights.sample_battery_if_due(30 * HZ, Some(3390), 30 * HZ);
    assert_eq!(lights.battery, Some(50));
    lights.sample_battery_if_due(40 * HZ, None, 40 * HZ);
    assert_eq!(lights.battery, Some(50));
    assert_eq!(lights.last_battery_sample, Some(40 * HZ));
}

#[test]
fn full_level_from_a_sample_is_stamped_when_it_is_read() {
    let mut lights = central();
    lights.set_charging(true, 10);
    lights.sample_battery_if_due(20, Some(3390), 25);
    assert_eq!((lights.battery, lights.charge_since), (Some(100), 25));
}

#[test]
fn alerts_last_five_seconds_and_return_after_five_minutes() {
    let mut lights = central();
    lights.set_battery_level(20, 0);
    lights.refresh_low_battery(HZ);
    assert_eq!((lights.low_alert_until, lights.low_next_alert), (6 * HZ, 306 * HZ));
    lights.refresh_low_battery(306 * HZ - 1);
    assert_eq!(lights.low_alert_until, 6 * HZ);
    assert!(!lights.low_blinking(306 * HZ - 1));
    lights.refresh_low_battery(306 * HZ);
    assert_eq!((lights.low_alert_until, lights.low_next_alert), (311 * HZ, 611 * HZ));
    assert!(lights.low_blinking(306 * HZ));
}

#[test]
fn fresh_drop_alerts_at_once() {
    let mut lights = central();
    lights.set_battery_level(20, 0);
    lights.refresh_low_battery(HZ);
    lights.set_battery_level(21, 0);
    lights.refresh_low_battery(10 * HZ);
    assert_eq!((lights.low_alert_until, lights.low_next_alert), (10 * HZ, 10 * HZ));
    lights.set_battery_level(19, 0);
    lights.refresh_low_battery(11 * HZ);
    assert!(lights.low_blinking(11 * HZ));
    assert_eq!(lights.low_alert_until, 16 * HZ);
}

#[test]
fn connection_fades_in_shows_and_fades_out() {
    let mut lights = quiet(Role::Central);
    lights.process_event_at(Event::SplitPeripheral(0, true), 0);
    let start = 100 * HZ;
    lights.process_event_at(Event::BleState(0, BleState::Connected), start);
    assert!(lights.pending);
    for frame in 1..=6u8 {
        let transfer = refresh(&mut lights, start + frame as u64).unwrap();
        assert_eq!(transfer.power_up, frame == 1);
        assert!(!transfer.power_down);
        let color = Grb { g: 0, r: 3 * frame, b: 0 };
        assert!(transfer.words == words(Grb::off(), color));
        assert_eq!(lights.is_animating(), frame < 6);
        assert!(!lights.pending);
    }
    assert!(refresh(&mut lights, start + 7).is_none());
    assert!(!lights.is_animating());

    let end = start + 3 * HZ;
    for frame in 1..=6u8 {
        let transfer = refresh(&mut lights, end).unwrap();
        assert!(!transfer.power_up);
        assert_eq!(transfer.power_down, frame == 6);
        assert!(transfer.words == words(Grb::off(), Grb { g: 0, r: 18 - 3 * frame, b: 0 }));
    }
    assert!(!lights.rail_on && !lights.is_animating());
    assert!(refresh(&mut lights, end).is_none());
}

#[test]
fn dark_moment_of_an_animation_counts_as_animation() {
    let mut lights = quiet(Role::Peripheral);
    let _ = refresh(&mut lights, 0);
    assert_eq!(lights.cur_outer, Grb::off());
    assert_eq!(lights.tgt_outer, Grb::off());
    assert!(lights.outer_active);
    assert!(lights.is_animating());
}

#[test]
fn refresh_takes_in_usb_power_and_sample() {
    let mut lights = Ws2812Indicator::new_at(Role::Peripheral, HZ, 0);
    let now = 200 * HZ;
    assert!(lights.update_at(now, true, Some(3140), now + 5).is_ok());
    assert!(lights.charging);
    assert_eq!(lights.charge_since, now);
    assert_eq!(lights.battery, Some(50));
    assert_eq!(lights.last_battery_sample, Some(now));
    assert!(lights.inner_active);
    assert!(!lights.outer_active);
}

#[test]
fn sleeping_half_goes_dark_and_ignores_its_inputs() {
    let mut lights = quiet(Role::Central);
    lights.process_event_at(Event::KeyboardIndicator(0x02), 0);
    for _ in 0..6 {
        let _ = refresh(&mut lights, 100 * HZ);
    }
    assert_eq!(lights.cur_outer, Grb::amber());
    assert!(lights.rail_on);
    let sampled = lights.last_battery_sample;
    lights.process_event_at(Event::Sleep(true), 100 * HZ);
    for _ in 0..6 {
        assert!(lights.update_at(200 * HZ, true, Some(3390), 0).is_ok());
    }
    assert_eq!((lights.cur_inner, lights.cur_outer), (Grb::off(), Grb::off()));
    assert!(!lights.rail_on && !lights.is_animating() && !lights.charging);
    assert_eq!(lights.battery, Some(50));
    assert_eq!(lights.last_battery_sample, sampled);
}

#[test]
fn clock_that_runs_backwards_is_refused() {
    let mut lights = central();
    lights.process_event_at(Event::SplitPeripheral(0, true), 1000);
    let result = lights.update_at(10, false, None, 999);
    assert!(matches!(result, Err(ClockError::Backwards)));
    assert!(lights.pending);
    assert_eq!(lights.last_battery_sample, None);
    assert!(lights.update_at(10, false, None, 1000).is_ok());
}

#[test]
fn profile_switch_of_the_future_is_no_reason_to_refuse() {
    let mut lights = central();
    lights.process_event_at(Event::BleProfile(2), 1000);
    assert!(lights.update_at(10, false, None, 500).is_ok());
    assert_eq!(lights.tgt_outer, Grb::off());
    assert!(lights.update_at(10, false, None, 1000).is_ok());
    assert_eq!(lights.tgt_outer, Grb::blue());
}

#[test]
fn clock_at_its_end_is_refused_only_where_an_alert_starts() {
    let late = u64::MAX - 305 * HZ;
    let mut lights = central();
    lights.process_event_at(Event::Battery(20), 0);
    assert!(lights.can_schedule_alert(late));
    assert!(!lights.can_schedule_alert(late + 1));
    let result = lights.update_at(late + 1, false, None, u64::MAX);
    assert!(matches!(result, Err(ClockError::Exhausted)));
    assert_eq!(lights.low_next_alert, 0);
    assert!(lights.update_at(late, false, None, u64::MAX).is_ok());
    assert_eq!(lights.low_next_alert, u64::MAX);

    let mut lights = quiet(Role::Central);
    assert!(lights.update_at(u64::MAX, false, None, u64::MAX).is_ok());
}
