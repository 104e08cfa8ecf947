//! Functions that read the clock, on a clock that the test drives.

use cornix_leds::clock::ClockError;
use cornix_leds::color::{Grb, LightEffect};
use cornix_leds::polling::{PollStep, PollingLoop};
use cornix_leds::{BleState, Event, Role, Ws2812Indicator};
use embassy_time::{Duration, Instant, MockDriver, TICK_HZ};

fn advance(ms: u64) {
    MockDriver::get().advance(Duration::from_millis(ms));
}

#[test]
fn new_lights_take_rate_and_time_from_the_clock() {
    MockDriver::get().reset();
    advance(1234);
    let lights = Ws2812Indicator::new(Role::Central);
    assert_eq!(lights.hz, TICK_HZ);
    assert_eq!(lights.hz, Duration::from_secs(1).as_ticks());
    assert_eq!(lights.ble_since, Instant::now().as_ticks());
    assert_eq!(lights.ble_since, 1234 * TICK_HZ / 1000);
    assert_eq!(lights.peer_since, lights.ble_since);
    assert_eq!(lights.charge_since, lights.ble_since);
    assert!(lights.pending && !lights.rail_on);
}

#[test]
fn events_are_stamped_with_the_time() {
    MockDriver::get().reset();
    let mut lights = Ws2812Indicator::new(Role::Central);
    advance(700);
    lights.process_event(Event::BleState(2, BleState::Connected));
    let now = Instant::now().as_ticks();
    assert_eq!(lights.ble_since, now);
    assert_eq!(lights.outer_effect(now), LightEffect::Solid(Grb::blue()));
    advance(3000);
    assert_eq!(lights.outer_effect(Instant::now().as_ticks()), LightEffect::Off);
}

#[test]
fn refresh_starts_with_the_time_and_asks_for_samples() {
    MockDriver::get().reset();
    let mut lights = Ws2812Indicator::new(Role::Peripheral);
    advance(10);
    let (started, due) = lights.begin_update();
    assert_eq!(started, Instant::now().as_ticks());
    assert!(due);
    assert!(lights.update(started, false, Some(3140)).is_ok());
    assert_eq!(lights.battery, Some(50));
    advance(29_999);
    assert!(!lights.begin_update().1);
    advance(1);
    assert!(lights.begin_update().1);
    lights.process_event(Event::Sleep(true));
    assert!(!lights.begin_update().1);
}

#[test]
fn refresh_shows_what_the_time_calls_for() {
    MockDriver::get().reset();
    let mut lights = Ws2812Indicator::new(Role::Peripheral);
    // Half a breath after startup the missing half shows at full brightness.
    advance(1500);
    let (started, _) = lights.begin_update();
    let transfer = lights.update(started, false, None).unwrap().unwrap();
    assert!(transfer.power_up);
    assert_eq!(lights.tgt_outer, Grb::blue());
    assert_eq!(lights.cur_outer, Grb { g: 0, r: 0, b: 3 });
}

#[test]
fn refresh_by_a_clock_that_was_set_back_is_refused() {
    MockDriver::get().reset();
    advance(1000);
    let mut lights = Ws2812Indicator::new(Role::Peripheral);
    MockDriver::get().reset();
    let result = lights.update(0, false, None);
    assert!(matches!(result, Err(ClockError::Backwards)));
}

#[test]
fn loop_runs_by_the_clock() {
    MockDriver::get().reset();
    let mut lights = Ws2812Indicator::new(Role::Central);
    let mut polling = PollingLoop::new();
    assert_eq!(polling.next_step(), PollStep::Update);
    lights.pending = false;
    assert!(polling.updated(&lights).is_ok());
    advance(400);
    assert_eq!(polling.next_step(), PollStep::Wait(600 * TICK_HZ / 1000));
    assert!(polling.event_processed(&lights).is_ok());
    assert_eq!(polling.next_step(), PollStep::Wait(600 * TICK_HZ / 1000));
    lights.process_event(Event::KeyboardIndicator(0x02));
    assert!(polling.event_processed(&lights).is_ok());
    assert_eq!(polling.next_step(), PollStep::Wait(33 * TICK_HZ / 1000));
    advance(33);
    assert_eq!(polling.next_step(), PollStep::Update);
}

#[test]
fn loop_at_the_end_of_the_clock_is_refused() {
    MockDriver::get().reset();
    let mut lights = Ws2812Indicator::new(Role::Central);
    lights.pending = false;
    let mut polling = PollingLoop { deadline: 7 };
    MockDriver::get().advance(Duration::from_ticks(u64::MAX - 5));
    assert_eq!(polling.updated(&lights), Err(ClockError::Exhausted));
    assert!(polling.event_processed(&lights).is_ok());
    lights.pending = true;
    assert_eq!(polling.event_processed(&lights), Err(ClockError::Exhausted));
    assert_eq!(polling.deadline, 7);
}
