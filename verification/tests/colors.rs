use cornix_leds::color::{approach, approach_channel, Grb, LightEffect, FADE_STEP};

fn grb(g: u8, r: u8, b: u8) -> Grb {
    Grb { g, r, b }
}

#[test]
fn channel_moves_by_one_step_and_stops_at_the_target() {
    assert_eq!(approach_channel(0, 18, 3), 3);
    assert_eq!(approach_channel(16, 18, 3), 18);
    assert_eq!(approach_channel(18, 0, 3), 15);
    assert_eq!(approach_channel(2, 0, 3), 0);
    assert_eq!(approach_channel(7, 7, 3), 7);
    assert_eq!(approach_channel(254, 255, 3), 255);
    assert_eq!(approach_channel(1, 0, 255), 0);
    assert_eq!(approach_channel(9, 200, 0), 9);
}

#[test]
fn color_moves_in_every_channel() {
    assert_eq!(approach(grb(0, 18, 9), grb(12, 0, 10), 3), grb(3, 15, 10));
}

#[test]
fn fade_between_palette_colors_takes_six_frames() {
    let mut cur = Grb::off();
    for frame in 1..=6 {
        cur = approach(cur, Grb::red(), FADE_STEP);
        assert_eq!(cur, grb(0, 3 * frame, 0));
    }
    assert_eq!(cur, Grb::red());
    assert_eq!(approach(cur, Grb::red(), FADE_STEP), Grb::red());
    for _ in 0..6 {
        cur = approach(cur, Grb::blue(), FADE_STEP);
    }
    assert_eq!(cur, Grb::blue());
}

#[test]
fn palette_levels() {
    assert_eq!(Grb::off(), grb(0, 0, 0));
    assert_eq!(Grb::red(), grb(0, 18, 0));
    assert_eq!(Grb::green(), grb(12, 0, 0));
    assert_eq!(Grb::blue(), grb(0, 0, 18));
    assert_eq!(Grb::magenta(), grb(0, 14, 16));
    assert_eq!(Grb::cyan(), grb(10, 0, 14));
    assert_eq!(Grb::amber(), grb(6, 18, 0));
}

#[test]
fn only_breath_and_low_battery_are_animated() {
    assert!(!LightEffect::Off.is_animated());
    assert!(!LightEffect::Solid(Grb::red()).is_animated());
    assert!(LightEffect::Breath(Grb::red()).is_animated());
    assert!(LightEffect::LowBattery.is_animated());
}
