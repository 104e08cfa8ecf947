use cornix_leds::clock::{from_millis, from_secs, millis_phase, ClockError};
use cornix_leds::color::Grb;
use cornix_leds::polling::{PollStep, PollingLoop};
use cornix_leds::{Event, Role, Ws2812Indicator};
use embassy_time::{Duration, Instant, TICK_HZ};

const HZ: u64 = 32_768;

fn resting() -> Ws2812Indicator {
    let mut lights = Ws2812Indicator::new_at(Role::Central, HZ, 0);
    lights.pending = false;
    lights
}

#[test]
fn conversions_agree_with_the_time_library() {
    for ms in [0, 1, 5, 33, 999, 1000, 123_456] {
        assert_eq!(from_millis(ms, TICK_HZ), Duration::from_millis(ms).as_ticks());
    }
    for secs in [0, 3, 5, 30, 60, 300] {
        assert_eq!(from_secs(secs, TICK_HZ), Duration::from_secs(secs).as_ticks());
    }
    for ticks in [0, 1, 999, 1000, 1_234_567, 98_765_432_101] {
        let ms = Instant::from_ticks(ticks).as_millis();
        assert_eq!(millis_phase(ticks, TICK_HZ, 3000), ms % 3000);
    }
}

#[test]
fn conversions_round_as_stated() {
    assert_eq!(from_millis(33, HZ), 1082);
    assert_eq!(from_millis(1000, HZ), HZ);
    assert_eq!(from_millis(1, 1), 1);
    assert_eq!(millis_phase(HZ + 1, HZ, 3000), 1000);
    assert_eq!(millis_phase(u64::MAX, 1, 7), ((u64::MAX as u128 * 1000) % 7) as u64);
}

#[test]
fn changing_lights_are_refreshed_faster_than_resting_ones() {
    let mut lights = resting();
    assert_eq!(lights.interval(), HZ);
    lights.tgt_inner = Grb::red();
    assert!(lights.is_animating());
    assert_eq!(lights.interval(), 1082);
    lights.cur_inner = Grb::red();
    assert_eq!(lights.interval(), HZ);
    lights.outer_active = true;
    assert_eq!(lights.interval(), 1082);
}

#[test]
fn first_refresh_is_due_at_once() {
    let polling = PollingLoop::new();
    assert_eq!(polling.next_step_at(0), PollStep::Update);
    assert_eq!(polling.next_step_at(u64::MAX), PollStep::Update);
}

#[test]
fn loop_waits_for_the_rest_of_the_interval() {
    let mut polling = PollingLoop::new();
    assert!(polling.updated_at(&resting(), 500).is_ok());
    assert_eq!(polling.deadline, 500 + HZ);
    assert_eq!(polling.next_step_at(600), PollStep::Wait(HZ - 100));
    assert_eq!(polling.next_step_at(500 + HZ - 1), PollStep::Wait(1));
    assert_eq!(polling.next_step_at(500 + HZ), PollStep::Update);
}

#[test]
fn events_pull_the_refresh_in_and_never_put_it_off() {
    let mut polling = PollingLoop::new();
    let mut lights = resting();
    assert!(polling.updated_at(&lights, 0).is_ok());
    assert!(polling.event_processed_at(&lights, 100).is_ok());
    assert_eq!(polling.deadline, HZ);
    lights.process_event_at(Event::KeyboardIndicator(0x02), 200);
    assert!(polling.event_processed_at(&lights, 200).is_ok());
    assert_eq!(polling.deadline, 200 + 1082);
    for now in 201..1000 {
        assert!(polling.event_processed_at(&lights, now).is_ok());
        assert_eq!(polling.deadline, 200 + 1082);
    }
    assert_eq!(polling.next_step_at(200 + 1082), PollStep::Update);
}

#[test]
fn late_change_keeps_an_early_deadline() {
    let mut polling = PollingLoop::new();
    let mut lights = resting();
    assert!(polling.updated_at(&lights, 0).is_ok());
    lights.pending = true;
    assert!(polling.event_processed_at(&lights, HZ - 10).is_ok());
    assert_eq!(polling.deadline, HZ);
}

#[test]
fn deadline_past_the_end_of_the_clock_is_refused() {
    let mut lights = resting();
    let mut polling = PollingLoop { deadline: 7 };
    assert_eq!(polling.updated_at(&lights, u64::MAX - HZ + 1), Err(ClockError::Exhausted));
    assert_eq!(polling.deadline, 7);
    assert_eq!(polling.updated_at(&lights, u64::MAX - HZ), Ok(()));
    assert_eq!(polling.deadline, u64::MAX);

    assert_eq!(polling.event_processed_at(&lights, u64::MAX), Ok(()));
    lights.pending = true;
    assert_eq!(polling.event_processed_at(&lights, u64::MAX - 1081), Err(ClockError::Exhausted));
    assert_eq!(polling.deadline, u64::MAX);
    assert_eq!(polling.event_processed_at(&lights, u64::MAX - 1083), Ok(()));
    assert_eq!(polling.deadline, u64::MAX - 1);
}
