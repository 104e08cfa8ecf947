use cornix_leds::breath::{breath_level, breath_lut, dim, low_blink_on, BREATH_STEPS};
use cornix_leds::color::Grb;

#[test]
fn curve_is_a_squared_triangle() {
    let table = breath_lut();
    assert_eq!(table.len(), 64);
    assert_eq!(table[0], 0);
    assert_eq!(table[1], 0);
    assert_eq!(table[8], 15);
    assert_eq!(table[16], 63);
    assert_eq!(table[24], 143);
    assert_eq!(table[31], 238);
    assert_eq!(table[32], 255);
    assert_eq!(table[33], 238);
    assert_eq!(table[48], 63);
    assert_eq!(table[63], 0);
}

#[test]
fn curve_rises_and_falls_alike() {
    let table = breath_lut();
    for i in 1..BREATH_STEPS / 2 {
        assert!(table[i] >= table[i - 1]);
        assert_eq!(table[i], table[BREATH_STEPS - i]);
    }
}

#[test]
fn level_follows_the_time_within_a_breath() {
    assert_eq!(breath_level(0), 0);
    assert_eq!(breath_level(750), 63);
    assert_eq!(breath_level(1499), 238);
    assert_eq!(breath_level(1500), 255);
    assert_eq!(breath_level(2250), 63);
    assert_eq!(breath_level(2999), 0);
}

#[test]
fn dimming_scales_every_channel() {
    assert_eq!(dim(Grb::magenta(), 255), Grb::magenta());
    assert_eq!(dim(Grb::magenta(), 0), Grb::off());
    assert_eq!(dim(Grb::magenta(), 128), Grb { g: 0, r: 7, b: 8 });
    assert_eq!(dim(Grb { g: 255, r: 255, b: 255 }, 254), Grb { g: 254, r: 254, b: 254 });
}

#[test]
fn low_battery_blinks_twice_per_period() {
    assert!(low_blink_on(0));
    assert!(low_blink_on(199));
    assert!(!low_blink_on(200));
    assert!(!low_blink_on(399));
    assert!(low_blink_on(400));
    assert!(low_blink_on(599));
    assert!(!low_blink_on(600));
    assert!(!low_blink_on(1199));
}
