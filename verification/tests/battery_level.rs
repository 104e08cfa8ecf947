use cornix_leds::battery::battery_percent_from_adc;

#[test]
fn readings_beyond_the_ends_are_held() {
    assert_eq!(battery_percent_from_adc(i16::MAX), 100);
    assert_eq!(battery_percent_from_adc(3390), 100);
    assert_eq!(battery_percent_from_adc(2889), 0);
    assert_eq!(battery_percent_from_adc(0), 0);
    assert_eq!(battery_percent_from_adc(i16::MIN), 0);
}

#[test]
fn readings_in_between_are_linear() {
    assert_eq!(battery_percent_from_adc(3389), 99);
    assert_eq!(battery_percent_from_adc(3140), 50);
    assert_eq!(battery_percent_from_adc(2991), 20);
    assert_eq!(battery_percent_from_adc(2990), 19);
    assert_eq!(battery_percent_from_adc(2896), 1);
    assert_eq!(battery_percent_from_adc(2891), 0);
}

#[test]
fn reading_just_below_empty_rounds_to_zero() {
    assert_eq!(battery_percent_from_adc(2890), 0);
}

#[test]
fn level_never_falls_with_the_reading() {
    let mut last = 0;
    for val in 2800..3500 {
        let level = battery_percent_from_adc(val);
        assert!(level >= last);
        last = level;
    }
    assert_eq!(last, 100);
}
