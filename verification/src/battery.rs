//! Battery level from the raw reading of the voltage divider.

use vstd::prelude::*;

verus! {

/// At or below this level the battery counts as low, in percent.
pub const BATTERY_LOW: u8 = 20;

/// At or above this level the battery counts as full, in percent.
pub const BATTERY_FULL: u8 = 95;

/// Lower resistance of the divider, across which the ADC measures.
pub const ADC_DIVIDER_MEASURED: i32 = 2000;

/// Whole resistance of the divider.
pub const ADC_DIVIDER_TOTAL: i32 = 2806;

/// Divider input of a full battery, in ADC units.
pub const INPUT_FULL: i32 = 4755;

/// Divider input of an empty battery, in ADC units.
pub const INPUT_EMPTY: i32 = 4055;

/// ADC units at the divider's input per percent of charge.
pub const INPUT_PER_PERCENT: i32 = 7;

/// The divider's output for a given input, rounded down.
pub open spec fn divider_output(input: int) -> int {
    input * ADC_DIVIDER_MEASURED / ADC_DIVIDER_TOTAL as int
}

/// The divider's input for a given output, rounded down.
pub open spec fn divider_input(output: int) -> int {
    output * ADC_DIVIDER_TOTAL / ADC_DIVIDER_MEASURED as int
}

/// The charge level that an ADC reading stands for: linear in the divider's
/// input between empty and full, and held at the ends.
pub open spec fn percent(val: int) -> int {
    if val > divider_output(INPUT_FULL as int) {
        100
    } else if val < divider_output(INPUT_EMPTY as int) || divider_input(val) < INPUT_EMPTY {
        0
    } else {
        (divider_input(val) - INPUT_EMPTY) / INPUT_PER_PERCENT as int
    }
}

pub fn battery_percent_from_adc(val: i16) -> (level: u8)
    ensures
        level == percent(val as int),
        level <= 100,
{
    let val: i32 = val as i32;
    let full: i32 = INPUT_FULL * ADC_DIVIDER_MEASURED / ADC_DIVIDER_TOTAL;
    let empty: i32 = INPUT_EMPTY * ADC_DIVIDER_MEASURED / ADC_DIVIDER_TOTAL;
    if val > full {
        100
    } else if val < empty {
        0
    } else {
        // One reading at the empty end maps just below `INPUT_EMPTY`; division
        // rounds its level toward zero.
        ((val * ADC_DIVIDER_TOTAL / ADC_DIVIDER_MEASURED - INPUT_EMPTY) / INPUT_PER_PERCENT) as u8
    }
}

/// A higher reading never stands for a lower level.
pub proof fn percent_is_monotone(low: i16, high: i16)
    requires
        low <= high,
    ensures
        percent(low as int) <= percent(high as int),
{
}

/// Every level lies between 0 and 100 percent: 100 exactly above the full end
/// of the battery's range, 0 exactly less than one percent above the empty end.
pub proof fn percent_range(val: i16)
    ensures
        0 <= percent(val as int) <= 100,
        percent(val as int) == 100 <==> val > divider_output(INPUT_FULL as int),
        percent(val as int) == 0 <==> divider_input(val as int) < INPUT_EMPTY + INPUT_PER_PERCENT,
{
}

/// A reading stands for at least `p` percent exactly if the voltage before the
/// divider, 2806/2000 of the reading, has come `p` times seven units above the
/// 4055 units of an empty battery.
pub proof fn level_follows_voltage(val: i16, p: int)
    requires
        1 <= p <= 100,
    ensures
        percent(val as int) >= p <==> val * 2806 >= 2000 * (4055 + 7 * p),
{
}

/// Between the empty and the full end the level counts whole steps of seven
/// units; at most 20 percent and at least 95 percent begin where those steps do.
pub proof fn level_is_linear(val: i16)
    ensures
        2000 * 4055 <= val * 2806 < 2000 * 4755 ==> {
            &&& 2000 * (4055 + 7 * percent(val as int)) <= val * 2806
            &&& val * 2806 < 2000 * (4055 + 7 * (percent(val as int) + 1))
        },
        val * 2806 < 2000 * 4055 ==> percent(val as int) == 0,
        val * 2806 >= 2000 * 4755 ==> percent(val as int) == 100,
        percent(val as int) <= 20 <==> val * 2806 < 2000 * (4055 + 7 * 21),
        percent(val as int) >= 95 <==> val * 2806 >= 2000 * (4055 + 7 * 95),
{
}

} // verus!
