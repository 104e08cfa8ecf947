//! What holds of the lights over several events and refreshes.

use vstd::prelude::*;

use crate::battery;
use crate::battery::{BATTERY_FULL, BATTERY_LOW};
use crate::breath;
use crate::clock;
use crate::clock::ClockError;
use crate::color;
use crate::color::{Grb, LightEffect, FADE_STEP};
use crate::effects;
use crate::effects::{ACTIVITY_SECS, NOTICE_SECS};
use crate::event;
use crate::event::{BleState, Event, Role};
use crate::frame;
use crate::indicator;
use crate::indicator::Ws2812Indicator;
use crate::update::{FrameTransfer, BATTERY_SAMPLE_SECS, LOW_ALERT_SECS, LOW_QUIET_SECS};

verus! {

/// `secs` seconds in ticks of the clock of `lights`.
pub open spec fn span(lights: Ws2812Indicator, secs: u64) -> int {
    clock::secs_ticks(secs as int, lights.hz)
}

// Events.
/// An event that says nothing new changes nothing: it restarts no notice.
pub proof fn repeated_event_changes_nothing(
    lights: Ws2812Indicator,
    event: Event,
    first: u64,
    second: u64,
)
    ensures
        lights.after_event(event, first).after_event(event, second) == lights.after_event(
            event,
            first,
        ),
{
}

/// An event that changes anything asks for a prompt refresh.
pub proof fn changes_ask_for_a_refresh(lights: Ws2812Indicator, event: Event, now: u64)
    ensures
        lights.after_event(event, now) == lights || lights.after_event(event, now).pending,
{
}

/// What concerns the other half's role leaves a half's lights as they are.
pub proof fn events_of_the_other_role_are_ignored(
    lights: Ws2812Indicator,
    half: usize,
    connected: bool,
    profile: u8,
    state: BleState,
    report: u8,
    now: u64,
)
    ensures
        lights.role == Role::Central ==> lights.after_event(Event::SplitCentral(connected), now)
            == lights,
        lights.role == Role::Peripheral ==> {
            &&& lights.after_event(Event::SplitPeripheral(half, connected), now) == lights
            &&& lights.after_event(Event::BleState(profile, state), now) == lights
            &&& lights.after_event(Event::BleProfile(profile), now) == lights
            &&& lights.after_event(Event::KeyboardIndicator(report), now) == lights
        },
{
}

// Outer LED of the central half.
/// A new link to the host shows its profile's color for three seconds; then
/// Caps Lock comes back, if it is on.
pub proof fn host_connection_is_shown(lights: Ws2812Indicator, profile: u8, since: u64, now: u64)
    requires
        lights.role == Role::Central,
        !lights.ble_is(profile, BleState::Connected),
        lights.profile_since matches Some(t) ==> t <= since,
        since <= now,
    ensures
        ({
            let after = lights.after_event(Event::BleState(profile, BleState::Connected), since);
            after.outer_at(now) == if now - since < span(lights, NOTICE_SECS) {
                LightEffect::Solid(effects::profile_hue(profile))
            } else {
                lights.lock_light()
            }
        }),
{
}

/// A switch of profiles shows the new profile's color for three seconds, with
/// or without a link; then the rest of an advertising minute, else Caps Lock,
/// comes back.
pub proof fn profile_switch_is_shown(lights: Ws2812Indicator, profile: u8, since: u64, now: u64)
    requires
        lights.role == Role::Central,
        lights.ble_profile != profile,
        since <= now,
    ensures
        ({
            let after = lights.after_event(Event::BleProfile(profile), since);
            after.outer_at(now) == if now - since < span(lights, NOTICE_SECS) {
                LightEffect::Solid(effects::profile_hue(profile))
            } else if lights.ble_advertising && now - since < span(lights, ACTIVITY_SECS) {
                LightEffect::Breath(effects::profile_hue(profile))
            } else {
                lights.lock_light()
            }
        }),
{
}

/// So does a switch of profiles that comes with the state of the new link.
pub proof fn profile_switch_with_state_is_shown(
    lights: Ws2812Indicator,
    profile: u8,
    state: BleState,
    since: u64,
    now: u64,
)
    requires
        lights.role == Role::Central,
        lights.ble_profile != profile,
        since <= now,
    ensures
        ({
            let after = lights.after_event(Event::BleState(profile, state), since);
            after.outer_at(now) == if now - since < span(lights, NOTICE_SECS) {
                LightEffect::Solid(effects::profile_hue(profile))
            } else if state is Advertising && now - since < span(lights, ACTIVITY_SECS) {
                LightEffect::Breath(effects::profile_hue(profile))
            } else {
                lights.lock_light()
            }
        }),
{
}

/// Advertising breathes the profile's color for a minute, once a switch of
/// profiles no longer shows; then Caps Lock comes back, if it is on.
pub proof fn advertising_is_shown(lights: Ws2812Indicator, profile: u8, since: u64, now: u64)
    requires
        lights.role == Role::Central,
        !lights.ble_is(profile, BleState::Advertising),
        since <= now,
    ensures
        ({
            let after = lights.after_event(Event::BleState(profile, BleState::Advertising), since);
            let switched = if profile == lights.ble_profile {
                lights.profile_since
            } else {
                Some(since)
            };
            after.outer_at(now) == if switched matches Some(t) && 0 <= now - t < span(
                lights,
                NOTICE_SECS,
            ) {
                LightEffect::Solid(effects::profile_hue(profile))
            } else if now - since < span(lights, ACTIVITY_SECS) {
                LightEffect::Breath(effects::profile_hue(profile))
            } else {
                lights.lock_light()
            }
        }),
{
}

/// Caps Lock is shown, for as long as it is on, wherever the link to the host
/// has nothing to tell.
pub proof fn caps_lock_is_shown(lights: Ws2812Indicator, report: u8, since: u64, now: u64)
    requires
        lights.role == Role::Central,
        lights.ble_connected ==> now - lights.ble_since >= span(lights, NOTICE_SECS),
        lights.ble_advertising ==> now - lights.ble_since >= span(lights, ACTIVITY_SECS),
        !lights.profile_notice(now),
    ensures
        lights.after_event(Event::KeyboardIndicator(report), since).outer_at(now)
            == if event::lights_caps_lock(report) {
            LightEffect::Solid(Grb::amber())
        } else {
            LightEffect::Off
        },
{
}

// The link between the halves.
/// The event that tells a half about the other one.
pub open spec fn split_event(lights: Ws2812Indicator, half: usize, connected: bool) -> Event {
    match lights.role {
        Role::Central => Event::SplitPeripheral(half, connected),
        Role::Peripheral => Event::SplitCentral(connected),
    }
}

/// The effect of the LED that tells about the other half: the inner one of the
/// central half, the outer one of a peripheral half.
pub open spec fn split_light(lights: Ws2812Indicator, now: u64) -> LightEffect {
    match lights.role {
        Role::Central => lights.inner_at(now),
        Role::Peripheral => lights.outer_at(now),
    }
}

/// A lost half breathes blue for a minute and a found one shows solid blue for
/// three seconds, unless the central half's inner LED has charging or a low
/// battery to show.
pub proof fn split_link_is_shown(
    lights: Ws2812Indicator,
    half: usize,
    connected: bool,
    since: u64,
    now: u64,
)
    requires
        lights.peer_connected != connected,
        lights.role == Role::Central ==> !lights.charging && !lights.alerting(now),
        since <= now,
    ensures
        ({
            let after = lights.after_event(split_event(lights, half, connected), since);
            split_light(after, now) == if connected && now - since < span(lights, NOTICE_SECS) {
                LightEffect::Solid(Grb::blue())
            } else if !connected && now - since < span(lights, ACTIVITY_SECS) {
                LightEffect::Breath(Grb::blue())
            } else {
                LightEffect::Off
            }
        }),
{
}

// Charging.
/// While a battery charges that is not known to be full, the inner LED breathes
/// green, whatever else there is to tell.
pub proof fn charging_is_shown(lights: Ws2812Indicator, now: u64)
    requires
        lights.charging,
        !lights.at_least(BATTERY_FULL),
    ensures
        lights.inner_at(now) == LightEffect::Breath(Grb::green()),
{
}

/// An awake half that finds USB power with a refresh charges from then on, and
/// one that finds none does not.
pub proof fn usb_power_counts_as_charging(
    lights: Ws2812Indicator,
    started: u64,
    usb_present: bool,
    sample: Option<i16>,
    now: u64,
)
    requires
        !lights.sleeping,
    ensures
        lights.refreshed(started, usb_present, sample, now).charging == usb_present,
{
}

/// Reaching the full level on the charger shows solid green for three seconds
/// and then nothing, whatever else there is to tell.
pub proof fn full_battery_is_shown(lights: Ws2812Indicator, level: u8, since: u64, now: u64)
    requires
        lights.charging,
        !lights.at_least(BATTERY_FULL),
        level >= BATTERY_FULL,
        since <= now,
    ensures
        lights.after_event(Event::Battery(level), since).inner_at(now) == if now - since < span(
            lights,
            NOTICE_SECS,
        ) {
            LightEffect::Solid(Grb::green())
        } else {
            LightEffect::Off
        },
{
}

/// A full battery that comes to the charger shows the same.
pub proof fn full_battery_plugged_in_is_shown(lights: Ws2812Indicator, since: u64, now: u64)
    requires
        !lights.charging,
        lights.at_least(BATTERY_FULL),
        since <= now,
    ensures
        lights.after_event(Event::ChargingState(true), since).inner_at(now) == if now - since
            < span(lights, NOTICE_SECS) {
            LightEffect::Solid(Grb::green())
        } else {
            LightEffect::Off
        },
{
}

// Low battery.
/// An alert that starts at `start` blinks for five seconds; refreshes then
/// leave the schedule alone for five minutes, after which the next one starts.
pub proof fn alerts_alternate_with_quiet(lights: Ws2812Indicator, start: u64, now: u64)
    requires
        lights.wf(),
        lights.alert_starts(start),
        lights.alert_fits(start),
        start <= now,
    ensures
        ({
            let after = lights.with_alerts(start);
            let quiet_from = start + span(lights, LOW_ALERT_SECS);
            let next = quiet_from + span(lights, LOW_QUIET_SECS);
            &&& after.alerting(now) <==> now < quiet_from
            &&& now < next ==> after.with_alerts(now) == after
            &&& after.alert_starts(now) <==> now >= next
        }),
{
}

/// An alert shows on the inner LED of either half, unless it charges.
pub proof fn alert_is_shown(lights: Ws2812Indicator, now: u64)
    requires
        lights.alerting(now),
        !lights.charging,
    ensures
        lights.inner_at(now) == LightEffect::LowBattery,
{
}

/// A battery that was seen not low at `before` and then drops alerts with the
/// next refresh, however recent the last alert was.
pub proof fn fresh_drop_alerts_at_once(
    lights: Ws2812Indicator,
    before: u64,
    level: u8,
    dropped: u64,
    now: u64,
)
    requires
        lights.wf(),
        !lights.at_most(BATTERY_LOW),
        level <= BATTERY_LOW,
        before <= now,
        now + span(lights, LOW_ALERT_SECS) + span(lights, LOW_QUIET_SECS) <= u64::MAX,
    ensures
        lights.with_alerts(before).with_battery_level(level, dropped).with_alerts(now).alerting(
            now,
        ),
{
}

// Battery samples.
/// After a sample the next one is due thirty seconds later, and not before.
pub proof fn samples_are_spaced(
    lights: Ws2812Indicator,
    started: u64,
    sample: Option<i16>,
    done: u64,
    now: u64,
)
    requires
        lights.wf(),
        lights.sample_due_at(started),
        started <= now,
    ensures
        lights.with_sample(started, sample, done).sample_due_at(now) <==> now - started >= span(
            lights,
            BATTERY_SAMPLE_SECS,
        ),
{
}

// Power limits.
/// Without a charger, an alert or Caps Lock, lights that have heard nothing for
/// a minute show nothing.
pub proof fn lights_go_out_after_a_minute(lights: Ws2812Indicator, now: u64)
    requires
        lights.wf(),
        !lights.charging,
        !lights.alerting(now),
        !lights.caps_lock,
        now - lights.peer_since >= span(lights, ACTIVITY_SECS),
        now - lights.ble_since >= span(lights, ACTIVITY_SECS),
        !lights.profile_notice(now),
    ensures
        lights.inner_at(now) == LightEffect::Off,
        lights.outer_at(now) == LightEffect::Off,
{
}

/// A frame that lights an LED is sent with the power rail on, and after a frame
/// the rail is on exactly if the frame was not black.
pub proof fn lit_frames_have_power(
    lights: Ws2812Indicator,
    inner: Grb,
    outer: Grb,
    transfer: FrameTransfer,
)
    requires
        lights.wf(),
        transfer.shows(inner, outer, lights.rail_on),
    ensures
        indicator::lit(inner, outer) ==> lights.rail_on || transfer.power_up,
        lights.rendered(inner, outer).rail_on == ((lights.rail_on || transfer.power_up)
            && !transfer.power_down),
        lights.rendered(inner, outer).rail_on == indicator::lit(inner, outer),
{
}

// Fades.
/// `lights` after `frames` frames of a fade whose targets stay as they are.
pub open spec fn fading(lights: Ws2812Indicator, frames: nat) -> Ws2812Indicator
    decreases frames,
{
    if frames == 0 {
        lights
    } else {
        fading(lights, (frames - 1) as nat).shown()
    }
}

#[verifier::rlimit(30)]
proof fn fading_follows_colors(lights: Ws2812Indicator, frames: nat)
    requires
        lights.wf(),
    ensures
        ({
            let after = fading(lights, frames);
            &&& after.wf()
            &&& after.sleeping == lights.sleeping
            &&& after.inner_active == lights.inner_active
            &&& after.outer_active == lights.outer_active
            &&& after.tgt_inner == lights.tgt_inner
            &&& after.tgt_outer == lights.tgt_outer
            &&& after.cur_inner == color::faded(
                lights.cur_inner,
                lights.tgt_inner,
                FADE_STEP,
                frames,
            )
            &&& after.cur_outer == color::faded(
                lights.cur_outer,
                lights.tgt_outer,
                FADE_STEP,
                frames,
            )
            &&& frames > 0 ==> after.last == Some((after.cur_inner, after.cur_outer))
        }),
    decreases frames,
{
    if frames > 0 {
        fading_follows_colors(lights, (frames - 1) as nat);
    }
}

/// Whether `frames` frames cover the way from `cur` to `target` in every channel.
pub open spec fn fades_within(cur: Grb, target: Grb, frames: nat) -> bool {
    &&& color::gap(cur.g, target.g) <= frames * FADE_STEP
    &&& color::gap(cur.r, target.r) <= frames * FADE_STEP
    &&& color::gap(cur.b, target.b) <= frames * FADE_STEP
}

/// Lights whose effects stay as they are and are not animated reach their
/// colors and come to rest: the cadence drops, the power rail is on exactly if
/// a color is left to show, and another frame would change and send nothing.
pub proof fn steady_lights_come_to_rest(lights: Ws2812Indicator, frames: nat)
    requires
        lights.wf(),
        !lights.inner_active,
        !lights.outer_active,
        frames > 0,
        fades_within(lights.cur_inner, lights.tgt_inner, frames),
        fades_within(lights.cur_outer, lights.tgt_outer, frames),
    ensures
        ({
            let after = fading(lights, frames);
            &&& after.cur_inner == lights.tgt_inner
            &&& after.cur_outer == lights.tgt_outer
            &&& !after.animating()
            &&& after.rail_on == indicator::lit(lights.tgt_inner, lights.tgt_outer)
            &&& after.shown() == after
            &&& after.last == Some((after.cur_inner, after.cur_outer))
        }),
{
    fading_follows_colors(lights, frames);
    color::fade_arrives(lights.cur_inner, lights.tgt_inner, FADE_STEP, frames);
    color::fade_arrives(lights.cur_outer, lights.tgt_outer, FADE_STEP, frames);
    assert(fading(lights, frames) == fading(lights, (frames - 1) as nat).shown());
}

// Sleep.
/// A refresh while asleep fades toward darkness, whatever the clock, the
/// charger and the battery say.
pub proof fn sleep_fades_to_dark(
    lights: Ws2812Indicator,
    started: u64,
    usb_present: bool,
    sample: Option<i16>,
    now: u64,
)
    requires
        lights.sleeping,
    ensures
        lights.refresh_fault(started, usb_present, sample, now) is None,
        lights.refreshed(started, usb_present, sample, now) == lights.darkened().shown(),
        lights.refreshed(started, usb_present, sample, now).sleeping,
{
}

/// `lights` after a run of refreshes while asleep, each given by its start, the
/// charger, the battery sample and its end.
pub open spec fn slept(
    lights: Ws2812Indicator,
    refreshes: Seq<(u64, bool, Option<i16>, u64)>,
) -> Ws2812Indicator
    decreases refreshes.len(),
{
    if refreshes.len() == 0 {
        lights
    } else {
        let (started, usb_present, sample, now) = refreshes.last();
        slept(lights, refreshes.drop_last()).refreshed(started, usb_present, sample, now)
    }
}

proof fn slept_is_fading(
    lights: Ws2812Indicator,
    refreshes: Seq<(u64, bool, Option<i16>, u64)>,
)
    requires
        lights.wf(),
        lights.sleeping,
        refreshes.len() > 0,
    ensures
        slept(lights, refreshes) == fading(lights.darkened(), refreshes.len()),
        slept(lights, refreshes).sleeping,
    decreases refreshes.len(),
{
    let n = refreshes.len();
    let before = slept(lights, refreshes.drop_last());
    assert(fading(lights.darkened(), n) == fading(lights.darkened(), (n - 1) as nat).shown());
    if n == 1 {
        assert(before == lights);
        assert(fading(lights.darkened(), 0) == lights.darkened());
    } else {
        slept_is_fading(lights, refreshes.drop_last());
        fading_follows_colors(lights.darkened(), (n - 1) as nat);
        assert(before.darkened() == before);
    }
}

/// A half that sleeps for long enough is dark, with the power rail off, at rest.
pub proof fn sleep_turns_lights_off(
    lights: Ws2812Indicator,
    refreshes: Seq<(u64, bool, Option<i16>, u64)>,
)
    requires
        lights.wf(),
        lights.sleeping,
        refreshes.len() > 0,
        fades_within(lights.cur_inner, Grb::off(), refreshes.len()),
        fades_within(lights.cur_outer, Grb::off(), refreshes.len()),
    ensures
        ({
            let after = slept(lights, refreshes);
            &&& after.cur_inner == Grb::off()
            &&& after.cur_outer == Grb::off()
            &&& !after.rail_on
            &&& !after.animating()
        }),
{
    slept_is_fading(lights, refreshes);
    steady_lights_come_to_rest(lights.darkened(), refreshes.len());
}

/// Waking up shows the link to the host and the link between the halves again.
pub proof fn waking_shows_notices_again(lights: Ws2812Indicator, since: u64, now: u64)
    requires
        lights.wf(),
        lights.sleeping,
        since <= now,
        now - since < span(lights, NOTICE_SECS),
    ensures
        ({
            let awake = lights.after_event(Event::Sleep(false), since);
            &&& awake.role == Role::Central && awake.ble_connected ==> awake.outer_at(now)
                == LightEffect::Solid(effects::profile_hue(awake.ble_profile))
            &&& awake.role == Role::Central && awake.ble_advertising ==> awake.outer_at(now)
                == if lights.profile_notice(now) {
                LightEffect::Solid(effects::profile_hue(awake.ble_profile))
            } else {
                LightEffect::Breath(effects::profile_hue(awake.ble_profile))
            }
            &&& awake.role == Role::Central && !awake.charging && !awake.alerting(now)
                ==> awake.inner_at(now) == awake.split_notice(now)
            &&& awake.role == Role::Peripheral ==> awake.outer_at(now) == awake.split_notice(now)
            &&& awake.split_notice(now) == if awake.peer_connected {
                LightEffect::Solid(Grb::blue())
            } else {
                LightEffect::Breath(Grb::blue())
            }
        }),
{
}

// Refreshes.
/// No event that `lights` show lies after `now`.
pub open spec fn stamped_by(lights: Ws2812Indicator, now: u64) -> bool {
    &&& lights.ble_since <= now && lights.peer_since <= now && lights.charge_since <= now
    &&& lights.profile_since matches Some(since) ==> since <= now
}

/// By a clock that never runs backwards, no refresh finds it running backwards:
/// lights start with stamps of the past, and events and refreshes leave such.
#[verifier::rlimit(30)]
pub proof fn steady_clock_is_never_backwards(
    role: Role,
    hz: u64,
    lights: Ws2812Indicator,
    event: Event,
    started: u64,
    usb_present: bool,
    sample: Option<i16>,
    now: u64,
)
    requires
        stamped_by(lights, started),
        started <= now,
    ensures
        stamped_by(Ws2812Indicator::initial(role, hz, now), now),
        stamped_by(lights.after_event(event, started), started),
        stamped_by(lights, now),
        stamped_by(lights.refreshed(started, usb_present, sample, now), now),
        lights.refresh_fault(started, usb_present, sample, now) != Some(ClockError::Backwards),
{
    let measured = lights.measured(started, usb_present, sample, now);
    assert(stamped_by(measured, now));
    assert(stamped_by(measured.with_alerts(started), now));
}

/// A refresh moves no channel of either LED by more than the fade's step, and
/// never past its target.
#[verifier::rlimit(30)]
pub proof fn refresh_fades_smoothly(
    lights: Ws2812Indicator,
    started: u64,
    usb_present: bool,
    sample: Option<i16>,
    now: u64,
)
    ensures
        ({
            let after = lights.refreshed(started, usb_present, sample, now);
            &&& color::eased(lights.cur_inner, after.cur_inner, after.tgt_inner, FADE_STEP)
            &&& color::eased(lights.cur_outer, after.cur_outer, after.tgt_outer, FADE_STEP)
        }),
{
    let aimed = lights.retargeted(started, usb_present, sample, now);
    color::toward_eases(lights.cur_inner, aimed.tgt_inner, FADE_STEP);
    color::toward_eases(lights.cur_outer, aimed.tgt_outer, FADE_STEP);
}

/// After a refresh the lights count as changing exactly while an effect is
/// animated, dark or not, or a fade is under way; a settled color counts as
/// rest.
pub proof fn only_changing_lights_animate(
    lights: Ws2812Indicator,
    started: u64,
    usb_present: bool,
    sample: Option<i16>,
    now: u64,
)
    requires
        !lights.sleeping,
    ensures
        ({
            let seen = lights.measured(started, usb_present, sample, now).with_alerts(started);
            let after = lights.refreshed(started, usb_present, sample, now);
            after.animating() <==> {
                ||| seen.inner_at(now).animated()
                ||| seen.outer_at(now).animated()
                ||| after.cur_inner != seen.color_at(seen.inner_at(now), now)
                ||| after.cur_outer != seen.color_at(seen.outer_at(now), now)
            }
        }),
{
}

// Brightness.
/// The highest level that the lights drive a channel to.
pub const MAX_DRIVE: u8 = 18;

/// Whether no channel of `color` is driven above the highest level.
pub open spec fn soft(color: Grb) -> bool {
    color.g <= MAX_DRIVE && color.r <= MAX_DRIVE && color.b <= MAX_DRIVE
}

/// Whether all colors of `lights` are soft.
pub open spec fn all_soft(lights: Ws2812Indicator) -> bool {
    &&& soft(lights.cur_inner) && soft(lights.cur_outer)
    &&& soft(lights.tgt_inner) && soft(lights.tgt_outer)
}

proof fn breath_stays_soft(lights: Ws2812Indicator, color: Grb, now: u64)
    requires
        clock::valid_rate(lights.hz),
        soft(color),
    ensures
        soft(lights.color_at(LightEffect::Breath(color), now)),
{
    let ms = clock::ticks_millis(now as int, lights.hz);
    assert(ms >= 0) by (nonlinear_arith)
        requires
            ms == (now as int) * 1000 / (lights.hz as int),
            now >= 0,
            lights.hz >= 1,
    ;
    breath::breath_and_blink_repeat(ms, 0);
    breath::breath_curve_range(breath::breath_step(ms));
    let level = breath::breath_curve(breath::breath_step(ms)) as u8;
    breath::dimming_keeps_hue(color, level);
}

/// The lights never drive a channel above its highest level: they start dark,
/// and no event or refresh brightens them past it.
#[verifier::rlimit(30)]
pub proof fn lights_stay_soft(
    role: Role,
    hz: u64,
    lights: Ws2812Indicator,
    event: Event,
    started: u64,
    usb_present: bool,
    sample: Option<i16>,
    now: u64,
)
    requires
        lights.wf(),
        all_soft(lights),
    ensures
        all_soft(Ws2812Indicator::initial(role, hz, now)),
        all_soft(lights.after_event(event, now)),
        all_soft(lights.refreshed(started, usb_present, sample, now)),
{
    let aimed = lights.retargeted(started, usb_present, sample, now);
    let seen = lights.measured(started, usb_present, sample, now).with_alerts(started);
    breath_stays_soft(seen, Grb::green(), now);
    breath_stays_soft(seen, Grb::blue(), now);
    breath_stays_soft(seen, effects::profile_hue(seen.ble_profile), now);
    assert(soft(aimed.tgt_inner) && soft(aimed.tgt_outer));
    color::toward_eases(lights.cur_inner, aimed.tgt_inner, FADE_STEP);
    color::toward_eases(lights.cur_outer, aimed.tgt_outer, FADE_STEP);
}

/// A fade between any two colors that the lights show takes at most six frames,
/// which is about 200 ms at the fast cadence.
pub proof fn fades_take_six_frames(cur: Grb, target: Grb)
    requires
        soft(cur),
        soft(target),
    ensures
        color::faded(cur, target, FADE_STEP, 6) == target,
{
    color::fade_arrives(cur, target, FADE_STEP, 6);
}

// What the effects are, in the fields of the lights and seconds of the clock.
/// The inner LED tells, in this order: a charging battery (breathing green, or
/// once at 95 percent solid green for three seconds), a low battery (blinking
/// red during an alert), and on the central half the other half (breathing blue
/// for a minute while missing, solid blue for three seconds once found).
pub proof fn inner_led_follows_its_priorities(lights: Ws2812Indicator, now: u64)
    ensures
        ({
            let effect = lights.inner_at(now);
            let full = lights.battery matches Some(level) && level >= 95;
            let alert = now < lights.low_alert_until && (lights.battery matches Some(level)
                && level <= 20);
            let charge_age = now - lights.charge_since;
            let peer_age = now - lights.peer_since;
            let green = Grb { g: 12, r: 0, b: 0 };
            let blue = Grb { g: 0, r: 0, b: 18 };
            &&& lights.charging && !full ==> effect == LightEffect::Breath(green)
            &&& lights.charging && full && charge_age < 3 * lights.hz ==> effect
                == LightEffect::Solid(green)
            &&& lights.charging && full && charge_age >= 3 * lights.hz ==> effect
                == LightEffect::Off
            &&& !lights.charging && alert ==> effect == LightEffect::LowBattery
            &&& !lights.charging && !alert ==> {
                &&& lights.role == Role::Peripheral ==> effect == LightEffect::Off
                &&& lights.role == Role::Central && lights.peer_connected && peer_age < 3
                    * lights.hz ==> effect == LightEffect::Solid(blue)
                &&& lights.role == Role::Central && lights.peer_connected && peer_age >= 3
                    * lights.hz ==> effect == LightEffect::Off
                &&& lights.role == Role::Central && !lights.peer_connected && peer_age < 60
                    * lights.hz ==> effect == LightEffect::Breath(blue)
                &&& lights.role == Role::Central && !lights.peer_connected && peer_age >= 60
                    * lights.hz ==> effect == LightEffect::Off
            }
            &&& lights.alerting(now) <==> alert
        }),
{
}

/// The profiles are red, green, blue, magenta and cyan, in this order.
pub proof fn profiles_have_their_colors(profile: u8)
    ensures
        profile == 0 ==> effects::profile_hue(profile) == (Grb { g: 0, r: 18, b: 0 }),
        profile == 1 ==> effects::profile_hue(profile) == (Grb { g: 12, r: 0, b: 0 }),
        profile == 2 ==> effects::profile_hue(profile) == (Grb { g: 0, r: 0, b: 18 }),
        profile == 3 ==> effects::profile_hue(profile) == (Grb { g: 0, r: 14, b: 16 }),
        profile >= 4 ==> effects::profile_hue(profile) == (Grb { g: 10, r: 0, b: 14 }),
{
}

/// The outer LED of the central half tells, in this order: a new link or
/// profile (its color for three seconds), advertising (breathing its color for
/// a minute), Caps Lock (amber).
pub proof fn central_outer_led_follows_its_priorities(lights: Ws2812Indicator, now: u64)
    requires
        lights.role == Role::Central,
    ensures
        ({
            let effect = lights.outer_at(now);
            let hue = effects::profile_hue(lights.ble_profile);
            let link_age = now - lights.ble_since;
            let linked = lights.ble_connected && link_age < 3 * lights.hz;
            let switched = lights.profile_since matches Some(since) && 0 <= now - since < 3
                * lights.hz;
            let advertised = lights.ble_advertising && link_age < 60 * lights.hz;
            &&& linked || switched ==> effect == LightEffect::Solid(hue)
            &&& !linked && !switched && advertised ==> effect == LightEffect::Breath(hue)
            &&& !linked && !switched && !advertised && lights.caps_lock ==> effect
                == LightEffect::Solid(Grb { g: 6, r: 18, b: 0 })
            &&& !linked && !switched && !advertised && !lights.caps_lock ==> effect
                == LightEffect::Off
            &&& lights.profile_notice(now) <==> switched
            &&& lights.caps_lock ==> lights.lock_light() == LightEffect::Solid(
                Grb { g: 6, r: 18, b: 0 },
            )
            &&& !lights.caps_lock ==> lights.lock_light() == LightEffect::Off
        }),
{
}

/// The outer LED of a peripheral half tells about the central one: breathing
/// blue for a minute while missing, solid blue for three seconds once found.
pub proof fn peripheral_outer_led_shows_the_link(lights: Ws2812Indicator, now: u64)
    requires
        lights.role == Role::Peripheral,
    ensures
        ({
            let effect = lights.outer_at(now);
            let age = now - lights.peer_since;
            let blue = Grb { g: 0, r: 0, b: 18 };
            &&& lights.peer_connected && age < 3 * lights.hz ==> effect == LightEffect::Solid(blue)
            &&& lights.peer_connected && age >= 3 * lights.hz ==> effect == LightEffect::Off
            &&& !lights.peer_connected && age < 60 * lights.hz ==> effect == LightEffect::Breath(
                blue,
            )
            &&& !lights.peer_connected && age >= 60 * lights.hz ==> effect == LightEffect::Off
        }),
{
}

/// At the millisecond `ms` after startup, a breath has its color dimmed to the
/// level of the curve, an alert is red while the blink is lit and dark between
/// the pulses, a solid effect has its color and no effect none.
pub proof fn effects_have_their_colors(lights: Ws2812Indicator, color: Grb, now: u64, ms: int)
    requires
        1 <= lights.hz,
        ms * lights.hz <= 1000 * now < (ms + 1) * lights.hz,
    ensures
        lights.color_at(LightEffect::Off, now) == (Grb { g: 0, r: 0, b: 0 }),
        lights.color_at(LightEffect::Solid(color), now) == color,
        lights.color_at(LightEffect::Breath(color), now) == breath::dimmed(
            color,
            breath::breath_curve(breath::breath_step(ms)),
        ),
        breath::low_blink_lit(ms) ==> lights.color_at(LightEffect::LowBattery, now) == (Grb {
            g: 0,
            r: 18,
            b: 0,
        }),
        !breath::low_blink_lit(ms) ==> lights.color_at(LightEffect::LowBattery, now) == (Grb {
            g: 0,
            r: 0,
            b: 0,
        }),
{
    clock::ticks_are_rounded_down(now as int, lights.hz, ms);
}

/// Effects can be told exactly if they ask for the age of no stamp that lies
/// after `now`.
pub proof fn only_ages_are_asked_for(lights: Ws2812Indicator, now: u64)
    ensures
        ({
            let full = lights.battery matches Some(level) && level >= 95;
            let alert = now < lights.low_alert_until && (lights.battery matches Some(level)
                && level <= 20);
            !lights.effects_tellable(now) <==> {
                ||| lights.charging && full && lights.charge_since > now
                ||| lights.role == Role::Central && !lights.charging && !alert && lights.peer_since
                    > now
                ||| lights.role == Role::Central && lights.ble_connected && lights.ble_since > now
                ||| lights.role == Role::Central && lights.ble_advertising && lights.ble_since
                    > now
                ||| lights.role == Role::Peripheral && lights.peer_since > now
            }
        }),
{
}

// What events change, field by field.
/// Lights start awake and dark, without power, with nothing known, every stamp
/// set to the start, and a refresh asked for.
pub proof fn lights_start_dark(role: Role, hz: u64, now: u64)
    ensures
        ({
            let lights = Ws2812Indicator::initial(role, hz, now);
            let dark = Grb { g: 0, r: 0, b: 0 };
            &&& lights.role == role && lights.hz == hz
            &&& lights.battery is None && !lights.charging && lights.last_battery_sample is None
            &&& lights.ble_profile == 0 && !lights.ble_connected && !lights.ble_advertising
            &&& !lights.peer_connected && !lights.caps_lock && !lights.sleeping
            &&& lights.ble_since == now && lights.peer_since == now && lights.charge_since == now
            &&& lights.low_alert_until == now && lights.low_next_alert == now
            &&& lights.profile_since is None
            &&& lights.cur_inner == dark && lights.cur_outer == dark
            &&& lights.tgt_inner == dark && lights.tgt_outer == dark
            &&& !lights.inner_active && !lights.outer_active
            &&& lights.pending && !lights.rail_on && lights.last is None
        }),
{
}

/// A battery report is recorded as it comes; one that first reaches 95 percent
/// on the charger starts the charge notice.
pub proof fn battery_report_is_recorded(lights: Ws2812Indicator, level: u8, now: u64)
    ensures
        ({
            let after = lights.after_event(Event::Battery(level), now);
            let was_full = lights.battery matches Some(before) && before >= 95;
            let reached = lights.charging && level >= 95 && !was_full;
            &&& after.battery == Some(level)
            &&& after.pending
            &&& reached ==> after.charge_since == now
            &&& !reached ==> after.charge_since == lights.charge_since
            &&& after == (Ws2812Indicator {
                battery: after.battery,
                charge_since: after.charge_since,
                pending: after.pending,
                ..lights
            })
        }),
{
}

/// A charging report is recorded; a new one is stamped.
pub proof fn charging_report_is_recorded(lights: Ws2812Indicator, charging: bool, now: u64)
    ensures
        ({
            let after = lights.after_event(Event::ChargingState(charging), now);
            &&& after.charging == charging
            &&& charging == lights.charging ==> after == lights
            &&& charging != lights.charging ==> after.charge_since == now && after.pending
            &&& after == (Ws2812Indicator {
                charging: after.charging,
                charge_since: after.charge_since,
                pending: after.pending,
                ..lights
            })
        }),
{
}

/// A half records what it hears of the other one; news is stamped.
pub proof fn split_report_is_recorded(
    lights: Ws2812Indicator,
    half: usize,
    connected: bool,
    now: u64,
)
    ensures
        ({
            let after = match lights.role {
                Role::Central => lights.after_event(Event::SplitPeripheral(half, connected), now),
                Role::Peripheral => lights.after_event(Event::SplitCentral(connected), now),
            };
            &&& after.peer_connected == connected
            &&& connected == lights.peer_connected ==> after == lights
            &&& connected != lights.peer_connected ==> after.peer_since == now && after.pending
            &&& after == (Ws2812Indicator {
                peer_connected: after.peer_connected,
                peer_since: after.peer_since,
                pending: after.pending,
                ..lights
            })
        }),
{
}

/// The central half records the link to the host; news is stamped, and so is a
/// new profile.
pub proof fn host_report_is_recorded(
    lights: Ws2812Indicator,
    profile: u8,
    state: BleState,
    now: u64,
)
    requires
        lights.role == Role::Central,
    ensures
        ({
            let after = lights.after_event(Event::BleState(profile, state), now);
            let same = profile == lights.ble_profile && lights.ble_connected == (state
                == BleState::Connected) && lights.ble_advertising == (state
                == BleState::Advertising);
            &&& after.ble_profile == profile
            &&& after.ble_connected <==> state == BleState::Connected
            &&& after.ble_advertising <==> state == BleState::Advertising
            &&& same ==> after == lights
            &&& !same ==> after.ble_since == now && after.pending
            &&& profile != lights.ble_profile ==> after.profile_since == Some(now)
            &&& profile == lights.ble_profile ==> after.profile_since == lights.profile_since
            &&& after == (Ws2812Indicator {
                ble_profile: after.ble_profile,
                ble_connected: after.ble_connected,
                ble_advertising: after.ble_advertising,
                ble_since: after.ble_since,
                profile_since: after.profile_since,
                pending: after.pending,
                ..lights
            })
        }),
{
}

/// The central half records a switch of profiles and stamps it.
pub proof fn profile_report_is_recorded(lights: Ws2812Indicator, profile: u8, now: u64)
    requires
        lights.role == Role::Central,
    ensures
        ({
            let after = lights.after_event(Event::BleProfile(profile), now);
            &&& after.ble_profile == profile
            &&& profile == lights.ble_profile ==> after == lights
            &&& profile != lights.ble_profile ==> {
                &&& after.ble_since == now
                &&& after.profile_since == Some(now)
                &&& after.pending
            }
            &&& after == (Ws2812Indicator {
                ble_profile: after.ble_profile,
                ble_since: after.ble_since,
                profile_since: after.profile_since,
                pending: after.pending,
                ..lights
            })
        }),
{
}

/// The central half records Caps Lock from bit 1 of the host's report.
pub proof fn lock_report_is_recorded(lights: Ws2812Indicator, report: u8, now: u64)
    requires
        lights.role == Role::Central,
    ensures
        ({
            let after = lights.after_event(Event::KeyboardIndicator(report), now);
            &&& after.caps_lock <==> report & 2 != 0
            &&& after.caps_lock == lights.caps_lock ==> after == lights
            &&& after.caps_lock != lights.caps_lock ==> after.pending
            &&& after == (Ws2812Indicator {
                caps_lock: after.caps_lock,
                pending: after.pending,
                ..lights
            })
        }),
{
    assert((report / 2) % 2 == 1 <==> report & 2 != 0) by (bit_vector);
}

/// Falling asleep is recorded and stamps nothing; waking up stamps both links
/// anew. Anything that the lights do not show changes nothing.
pub proof fn sleep_report_is_recorded(lights: Ws2812Indicator, sleeping: bool, now: u64)
    ensures
        ({
            let after = lights.after_event(Event::Sleep(sleeping), now);
            &&& after.sleeping == sleeping
            &&& sleeping == lights.sleeping ==> after == lights
            &&& sleeping != lights.sleeping ==> after.pending
            &&& sleeping ==> after.ble_since == lights.ble_since && after.peer_since
                == lights.peer_since
            &&& !sleeping && lights.sleeping ==> after.ble_since == now && after.peer_since == now
            &&& after == (Ws2812Indicator {
                sleeping: after.sleeping,
                ble_since: after.ble_since,
                peer_since: after.peer_since,
                pending: after.pending,
                ..lights
            })
        }),
        lights.after_event(Event::Other, now) == lights,
{
}

// What a refresh does, field by field.
/// A refresh of an awake half leaves each LED aimed at the color that its
/// effect has at that time, an animated one included, and records which effects
/// are animated.
#[verifier::rlimit(60)]
pub proof fn refresh_aims_at_the_effects(
    lights: Ws2812Indicator,
    started: u64,
    usb_present: bool,
    sample: Option<i16>,
    now: u64,
)
    requires
        !lights.sleeping,
    ensures
        ({
            let after = lights.refreshed(started, usb_present, sample, now);
            &&& after.tgt_inner == after.color_at(after.inner_at(now), now)
            &&& after.tgt_outer == after.color_at(after.outer_at(now), now)
            &&& after.inner_active == after.inner_at(now).animated()
            &&& after.outer_active == after.outer_at(now).animated()
        }),
{
    let seen = lights.measured(started, usb_present, sample, now).with_alerts(started);
    let after = lights.refreshed(started, usb_present, sample, now);
    assert(after.inner_at(now) == seen.inner_at(now));
    assert(after.outer_at(now) == seen.outer_at(now));
}

/// While a battery below 95 percent charges, a refresh aims the inner LED at
/// green, dimmed to the level of the breath: at the brightest step that is
/// green itself.
#[verifier::rlimit(60)]
pub proof fn charging_aims_at_green(
    lights: Ws2812Indicator,
    started: u64,
    sample: Option<i16>,
    now: u64,
    ms: int,
)
    requires
        !lights.sleeping,
        1 <= lights.hz,
        ms * lights.hz <= 1000 * now < (ms + 1) * lights.hz,
        !(lights.refreshed(started, true, sample, now).battery matches Some(level) && level >= 95),
    ensures
        ({
            let after = lights.refreshed(started, true, sample, now);
            let level = breath::breath_curve(breath::breath_step(ms));
            &&& 255 * after.tgt_inner.g <= 12 * level < 255 * (after.tgt_inner.g + 1)
            &&& after.tgt_inner.r == 0 && after.tgt_inner.b == 0
            &&& after.inner_active
        }),
{
    let after = lights.refreshed(started, true, sample, now);
    refresh_aims_at_the_effects(lights, started, true, sample, now);
    refresh_takes_in_readings(lights, started, true, sample, now);
    inner_led_follows_its_priorities(after, now);
    let green = Grb { g: 12, r: 0, b: 0 };
    effects_have_their_colors(after, green, now, ms);
    assert(ms >= 0) by (nonlinear_arith)
        requires
            0 <= 1000 * now < (ms + 1) * lights.hz,
            lights.hz >= 1,
    ;
    breath::breath_and_blink_repeat(ms, 0);
    breath::breath_curve_range(breath::breath_step(ms));
    breath::dimming_scales_channels(green, breath::breath_curve(breath::breath_step(ms)) as u8);
    color::breath_and_blink_are_animated(green);
}

/// During an alert off the charger, a refresh aims the inner LED at red in the
/// lit phases of the blink and at darkness between them.
#[verifier::rlimit(60)]
pub proof fn alert_aims_at_red(
    lights: Ws2812Indicator,
    started: u64,
    sample: Option<i16>,
    now: u64,
    ms: int,
)
    requires
        !lights.sleeping,
        1 <= lights.hz,
        ms * lights.hz <= 1000 * now < (ms + 1) * lights.hz,
        lights.refreshed(started, false, sample, now).battery matches Some(level) && level <= 20,
        now < lights.refreshed(started, false, sample, now).low_alert_until,
    ensures
        ({
            let after = lights.refreshed(started, false, sample, now);
            &&& breath::low_blink_lit(ms) ==> after.tgt_inner == (Grb { g: 0, r: 18, b: 0 })
            &&& !breath::low_blink_lit(ms) ==> after.tgt_inner == (Grb { g: 0, r: 0, b: 0 })
            &&& after.inner_active
        }),
{
    let after = lights.refreshed(started, false, sample, now);
    refresh_aims_at_the_effects(lights, started, false, sample, now);
    refresh_takes_in_readings(lights, started, false, sample, now);
    inner_led_follows_its_priorities(after, now);
    effects_have_their_colors(after, Grb::red(), now, ms);
    color::breath_and_blink_are_animated(Grb::red());
}

/// A refresh of an awake half takes in whether there is USB power and, thirty
/// seconds after the last sample or if there was none, the battery's level; an
/// alert of five seconds starts if the battery is at 20 percent or below and
/// none has started within the last 305 seconds.
#[verifier::rlimit(60)]
pub proof fn refresh_takes_in_readings(
    lights: Ws2812Indicator,
    started: u64,
    usb_present: bool,
    sample: Option<i16>,
    now: u64,
)
    requires
        !lights.sleeping,
    ensures
        ({
            let after = lights.refreshed(started, usb_present, sample, now);
            let due = lights.last_battery_sample matches Some(last) ==> started - last >= 30
                * lights.hz;
            let was_full = lights.battery matches Some(level) && level >= 95;
            let is_full = after.battery matches Some(level) && level >= 95;
            let low = after.battery matches Some(level) && level <= 20;
            let reached = usb_present && due && sample is Some && is_full && !was_full;
            &&& after.charging == usb_present
            &&& due ==> after.last_battery_sample == Some(started)
            &&& !due ==> after.last_battery_sample == lights.last_battery_sample
            &&& due && sample is Some ==> (after.battery matches Some(level) && level
                == battery::percent(sample->0 as int))
            &&& !due || sample is None ==> after.battery == lights.battery
            &&& reached ==> after.charge_since == now
            &&& !reached && usb_present != lights.charging ==> after.charge_since == started
            &&& !reached && usb_present == lights.charging ==> after.charge_since
                == lights.charge_since
            &&& !low ==> after.low_alert_until == started && after.low_next_alert == started
            &&& low && started < lights.low_next_alert ==> after.low_alert_until
                == lights.low_alert_until && after.low_next_alert == lights.low_next_alert
            &&& low && started >= lights.low_next_alert && started + 305 * lights.hz <= u64::MAX
                ==> after.low_alert_until == started + 5 * lights.hz && after.low_next_alert
                == started + 305 * lights.hz
            &&& after.role == lights.role && after.hz == lights.hz
            &&& after.ble_profile == lights.ble_profile && after.ble_connected
                == lights.ble_connected && after.ble_advertising == lights.ble_advertising
            &&& after.ble_since == lights.ble_since && after.profile_since == lights.profile_since
            &&& after.peer_connected == lights.peer_connected && after.peer_since
                == lights.peer_since
            &&& after.caps_lock == lights.caps_lock && !after.sleeping
        }),
{
    if let Some(raw) = sample {
        battery::percent_range(raw);
    }
}

/// A refresh while asleep aims both LEDs at darkness and, but for the fade and
/// the frame, leaves everything as it was.
#[verifier::rlimit(60)]
pub proof fn sleeping_refresh_only_fades(
    lights: Ws2812Indicator,
    started: u64,
    usb_present: bool,
    sample: Option<i16>,
    now: u64,
)
    requires
        lights.sleeping,
    ensures
        ({
            let after = lights.refreshed(started, usb_present, sample, now);
            let dark = Grb { g: 0, r: 0, b: 0 };
            &&& after.tgt_inner == dark && after.tgt_outer == dark
            &&& !after.inner_active && !after.outer_active
            &&& after == (Ws2812Indicator {
                tgt_inner: dark,
                tgt_outer: dark,
                inner_active: false,
                outer_active: false,
                cur_inner: after.cur_inner,
                cur_outer: after.cur_outer,
                last: after.last,
                rail_on: after.rail_on,
                pending: false,
                ..lights
            })
        }),
{
}

/// Every refresh moves both LEDs by one step of three toward their targets,
/// shows where they stand, with the power rail on exactly if that is not dark,
/// and settles what was asked for.
#[verifier::rlimit(60)]
pub proof fn refresh_steps_and_shows(
    lights: Ws2812Indicator,
    started: u64,
    usb_present: bool,
    sample: Option<i16>,
    now: u64,
)
    requires
        lights.wf(),
    ensures
        ({
            let after = lights.refreshed(started, usb_present, sample, now);
            let dark = Grb { g: 0, r: 0, b: 0 };
            &&& after.cur_inner == color::toward(lights.cur_inner, after.tgt_inner, 3)
            &&& after.cur_outer == color::toward(lights.cur_outer, after.tgt_outer, 3)
            &&& after.last == Some((after.cur_inner, after.cur_outer))
            &&& after.rail_on <==> after.cur_inner != dark || after.cur_outer != dark
            &&& !after.pending
        }),
{
}

/// A refresh fails only awake: for want of clock where an alert that is due
/// would end, with the quiet time after it, past the last tick; else for a
/// clock that has run backwards, where an effect asks for an age.
#[verifier::rlimit(60)]
pub proof fn refresh_fails_only_by_the_clock(
    lights: Ws2812Indicator,
    started: u64,
    usb_present: bool,
    sample: Option<i16>,
    now: u64,
)
    ensures
        ({
            let fault = lights.refresh_fault(started, usb_present, sample, now);
            let after = lights.refreshed(started, usb_present, sample, now);
            let low = after.battery matches Some(level) && level <= 20;
            let exhausted = !lights.sleeping && low && started >= lights.low_next_alert && started
                + 305 * lights.hz > u64::MAX;
            &&& fault == Some(ClockError::Exhausted) <==> exhausted
            &&& fault == Some(ClockError::Backwards) <==> !lights.sleeping && !exhausted
                && !after.effects_tellable(now)
        }),
{
    let seen = lights.measured(started, usb_present, sample, now).with_alerts(started);
    let after = lights.refreshed(started, usb_present, sample, now);
    if !lights.sleeping {
        assert(after.effects_tellable(now) == seen.effects_tellable(now));
        assert(after.battery == lights.measured(started, usb_present, sample, now).battery);
    }
}

/// What a refresh hands to the hardware: nothing if it failed, which leaves the
/// lights as they were, or if the last frame shows the colors already; else the
/// frame of the colors, with the rail switched on before it if it was off and
/// the frame is not dark, and off after it if the frame is dark.
pub proof fn refresh_sends_what_it_shows(
    lights: Ws2812Indicator,
    started: u64,
    usb_present: bool,
    sample: Option<i16>,
    now: u64,
    next: Ws2812Indicator,
    result: Result<Option<FrameTransfer>, ClockError>,
)
    requires
        lights.refresh_outcome(started, usb_present, sample, now, next, result),
    ensures
        ({
            let fault = lights.refresh_fault(started, usb_present, sample, now);
            let dark = Grb { g: 0, r: 0, b: 0 };
            let is_dark = next.cur_inner == dark && next.cur_outer == dark;
            &&& result is Err <==> fault is Some
            &&& result matches Err(error) ==> fault == Some(error) && next == lights
            &&& result is Ok ==> next == lights.refreshed(started, usb_present, sample, now)
            &&& result matches Ok(sent) ==> (sent is None <==> lights.last == Some(
                (next.cur_inner, next.cur_outer),
            ))
            &&& result matches Ok(Some(transfer)) ==> {
                &&& transfer.words@ == frame::frame_words(next.cur_inner, next.cur_outer)
                &&& transfer.power_up <==> !is_dark && !lights.rail_on
                &&& transfer.power_down <==> is_dark
            }
        }),
{
}

/// A frame is sent exactly if it differs from the last one; showing it records
/// it and the state of the rail, and nothing else.
pub proof fn showing_records_the_frame(lights: Ws2812Indicator, inner: Grb, outer: Grb)
    requires
        lights.wf(),
    ensures
        ({
            let after = lights.rendered(inner, outer);
            let dark = Grb { g: 0, r: 0, b: 0 };
            &&& after.last == Some((inner, outer))
            &&& after.rail_on <==> inner != dark || outer != dark
            &&& after == (Ws2812Indicator { last: after.last, rail_on: after.rail_on, ..lights })
        }),
{
}

/// A sample is due thirty seconds after the last one, or if there was none; one
/// that is due records its time and, where there is a reading, the level, which
/// on first reaching 95 percent on the charger starts the charge notice.
pub proof fn sample_is_recorded(
    lights: Ws2812Indicator,
    started: u64,
    sample: Option<i16>,
    now: u64,
)
    ensures
        ({
            let after = lights.with_sample(started, sample, now);
            let due = lights.last_battery_sample matches Some(last) ==> started - last >= 30
                * lights.hz;
            let was_full = lights.battery matches Some(level) && level >= 95;
            let is_full = after.battery matches Some(level) && level >= 95;
            &&& lights.sample_due_at(started) <==> due
            &&& !due ==> after == lights
            &&& due ==> after.last_battery_sample == Some(started)
            &&& due && sample is None ==> after == (Ws2812Indicator {
                last_battery_sample: after.last_battery_sample,
                ..lights
            })
            &&& due && sample is Some ==> {
                &&& after.battery matches Some(level) && level == battery::percent(
                    sample->0 as int,
                )
                &&& lights.charging && is_full && !was_full ==> after.charge_since == now
                &&& !(lights.charging && is_full && !was_full) ==> after.charge_since
                    == lights.charge_since
                &&& after.pending
            }
            &&& after == (Ws2812Indicator {
                battery: after.battery,
                charge_since: after.charge_since,
                last_battery_sample: after.last_battery_sample,
                pending: after.pending,
                ..lights
            })
        }),
{
    if let Some(raw) = sample {
        battery::percent_range(raw);
    }
}

/// The alert schedule: a battery above 20 percent, or not known, keeps it armed
/// for now; at or below, an alert of five seconds starts once the schedule has
/// come due, and the next is due 300 seconds after its end.
pub proof fn alerts_are_scheduled(lights: Ws2812Indicator, now: u64)
    ensures
        ({
            let after = lights.with_alerts(now);
            let low = lights.battery matches Some(level) && level <= 20;
            let starts = low && now >= lights.low_next_alert;
            let fits = now + 305 * lights.hz <= u64::MAX;
            &&& lights.alert_fits(now) <==> !starts || fits
            &&& !low ==> after.low_alert_until == now && after.low_next_alert == now
            &&& low && !starts ==> after == lights
            &&& starts && fits ==> after.low_alert_until == now + 5 * lights.hz
                && after.low_next_alert == now + 305 * lights.hz
            &&& after == (Ws2812Indicator {
                low_alert_until: after.low_alert_until,
                low_next_alert: after.low_next_alert,
                ..lights
            })
        }),
{
}

} // verus!
