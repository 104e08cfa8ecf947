//! When the lights are refreshed.
//!
//! The loop keeps an absolute deadline. Key presses are events too, so during
//! fast typing events arrive all the time; a wait that started anew with every
//! event would put the refresh off for as long as the typing lasts.

use vstd::prelude::*;

use crate::clock;
use crate::clock::ClockError;
use crate::indicator::Ws2812Indicator;
use crate::update::{ANIM_INTERVAL_MS, IDLE_INTERVAL_MS};

verus! {

/// What the loop does next.
#[derive(Clone, Copy, PartialEq, Eq, Structural, Debug)]
pub enum PollStep {
    /// Refresh the lights.
    Update,
    /// Wait for an event, for at most this many ticks; then refresh the lights.
    Wait(u64),
}

/// The state of the loop: when the next refresh is due.
#[derive(Clone, Copy, PartialEq, Eq, Structural, Debug)]
pub struct PollingLoop {
    pub deadline: u64,
}

impl Ws2812Indicator {
    /// Ticks to the next refresh of lights that change.
    pub open spec fn anim_ticks(self) -> int {
        clock::millis_ticks(ANIM_INTERVAL_MS as int, self.hz)
    }

    /// Ticks to the next refresh of lights that rest.
    pub open spec fn idle_ticks(self) -> int {
        clock::millis_ticks(IDLE_INTERVAL_MS as int, self.hz)
    }

    /// Ticks from one refresh to the next: few while the lights change, many
    /// while they rest.
    pub open spec fn interval_ticks(self) -> int {
        if self.animating() {
            self.anim_ticks()
        } else {
            self.idle_ticks()
        }
    }

    pub fn interval(&self) -> (ticks: u64)
        requires
            self.wf(),
        ensures
            ticks == self.interval_ticks(),
    {
        if self.is_animating() {
            clock::from_millis(ANIM_INTERVAL_MS, self.hz)
        } else {
            clock::from_millis(IDLE_INTERVAL_MS, self.hz)
        }
    }
}

impl PollingLoop {
    /// What the loop does at `now`.
    pub open spec fn step_at(self, now: u64) -> PollStep {
        if now >= self.deadline {
            PollStep::Update
        } else {
            PollStep::Wait((self.deadline - now) as u64)
        }
    }

    /// When the refresh after one that ended at `now` is due.
    pub open spec fn next_refresh(lights: Ws2812Indicator, now: u64) -> int {
        now + lights.interval_ticks()
    }

    /// When the refresh is due after an event at `now` has left the lights as
    /// they are: soon if the event has changed what they show, and in no case
    /// later than it was due before.
    pub open spec fn due_after_event(self, lights: Ws2812Indicator, now: u64) -> int {
        if lights.pending && now + lights.anim_ticks() < self.deadline {
            now + lights.anim_ticks()
        } else {
            self.deadline as int
        }
    }

    /// Whether an event at `now` leaves a deadline that the clock can count to.
    pub open spec fn event_fits(lights: Ws2812Indicator, now: u64) -> bool {
        lights.pending ==> now + lights.anim_ticks() <= u64::MAX
    }

    /// A loop whose first refresh is due at once.
    pub fn new() -> (polling: Self)
        ensures
            polling.deadline == 0,
            forall|now: u64| polling.step_at(now) == PollStep::Update,
    {
        PollingLoop { deadline: 0 }
    }

    /// What the loop does now.
    pub fn next_step(&self) -> (step: PollStep)
        ensures
            exists|now: u64| step == #[trigger] self.step_at(now),
    {
        let now: u64 = clock::now();
        self.next_step_at(now)
    }

    /// What the loop does at `now`.
    pub fn next_step_at(&self, now: u64) -> (step: PollStep)
        ensures
            step == self.step_at(now),
    {
        if now >= self.deadline {
            PollStep::Update
        } else {
            PollStep::Wait(self.deadline - now)
        }
    }

    /// What a refresh of the lights that ended at `now` comes to: the next one
    /// is due an interval later, unless the clock cannot count that far.
    pub open spec fn update_outcome(
        self,
        lights: Ws2812Indicator,
        now: u64,
        next: Self,
        result: Result<(), ClockError>,
    ) -> bool {
        if Self::next_refresh(lights, now) <= u64::MAX {
            result is Ok && next.deadline == Self::next_refresh(lights, now)
        } else {
            result == Err::<(), ClockError>(ClockError::Exhausted) && next == self
        }
    }

    /// What an event at `now` that has left the lights as they are comes to.
    pub open spec fn event_outcome(
        self,
        lights: Ws2812Indicator,
        now: u64,
        next: Self,
        result: Result<(), ClockError>,
    ) -> bool {
        if Self::event_fits(lights, now) {
            result is Ok && next.deadline == self.due_after_event(lights, now)
        } else {
            result == Err::<(), ClockError>(ClockError::Exhausted) && next == self
        }
    }

    /// Takes in that the lights have just been refreshed.
    pub fn updated(&mut self, lights: &Ws2812Indicator) -> (result: Result<(), ClockError>)
        requires
            lights.wf(),
        ensures
            exists|now: u64| #[trigger]
                old(self).update_outcome(*lights, now, *final(self), result),
    {
        let now: u64 = clock::now();
        self.updated_at(lights, now)
    }

    /// Takes in that the lights were refreshed until `now`.
    pub fn updated_at(&mut self, lights: &Ws2812Indicator, now: u64) -> (result: Result<
        (),
        ClockError,
    >)
        requires
            lights.wf(),
        ensures
            old(self).update_outcome(*lights, now, *final(self), result),
    {
        let interval: u64 = lights.interval();
        if now > u64::MAX - interval {
            return Err(ClockError::Exhausted);
        }
        self.deadline = now + interval;
        Ok(())
    }

    /// Takes in that the lights have just processed an event.
    pub fn event_processed(&mut self, lights: &Ws2812Indicator) -> (result: Result<(), ClockError>)
        requires
            lights.wf(),
        ensures
            final(self).deadline <= old(self).deadline,
            exists|now: u64| #[trigger]
                old(self).event_outcome(*lights, now, *final(self), result),
    {
        let now: u64 = clock::now();
        self.event_processed_at(lights, now)
    }

    /// Takes in that the lights processed an event at `now`.
    pub fn event_processed_at(&mut self, lights: &Ws2812Indicator, now: u64) -> (result: Result<
        (),
        ClockError,
    >)
        requires
            lights.wf(),
        ensures
            final(self).deadline <= old(self).deadline,
            old(self).event_outcome(*lights, now, *final(self), result),
    {
        if lights.pending {
            let interval: u64 = clock::from_millis(ANIM_INTERVAL_MS, lights.hz);
            if now > u64::MAX - interval {
                return Err(ClockError::Exhausted);
            }
            let soon: u64 = now + interval;
            if soon < self.deadline {
                self.deadline = soon;
            }
        }
        Ok(())
    }
}

/// When the refresh is due after a run of events, each given by the lights as
/// it left them and its time.
pub open spec fn due_after_events(
    polling: PollingLoop,
    events: Seq<(Ws2812Indicator, u64)>,
) -> PollingLoop
    decreases events.len(),
{
    if events.len() == 0 {
        polling
    } else {
        let before = due_after_events(polling, events.drop_last());
        let (lights, now) = events.last();
        PollingLoop { deadline: before.due_after_event(lights, now) as u64 }
    }
}

/// However many events arrive, they never put the refresh off: when the
/// deadline that stood before them has come, the loop refreshes.
pub proof fn events_never_put_off_the_refresh(
    polling: PollingLoop,
    events: Seq<(Ws2812Indicator, u64)>,
    now: u64,
)
    ensures
        due_after_events(polling, events).deadline <= polling.deadline,
        now >= polling.deadline ==> due_after_events(polling, events).step_at(now)
            == PollStep::Update,
    decreases events.len(),
{
    if events.len() > 0 {
        events_never_put_off_the_refresh(polling, events.drop_last(), now);
    }
}

/// An event that changes what the lights show is shown within one interval of
/// the fast cadence; one that changes nothing leaves the deadline as it is.
pub proof fn changes_are_shown_promptly(polling: PollingLoop, lights: Ws2812Indicator, now: u64)
    ensures
        lights.pending ==> polling.due_after_event(lights, now) <= now + lights.anim_ticks(),
        !lights.pending ==> polling.due_after_event(lights, now) == polling.deadline,
{
}

/// Lights at rest are refreshed once a second, lights that change every 33 ms,
/// rounded up to whole ticks.
pub proof fn cadence_in_seconds(lights: Ws2812Indicator)
    requires
        lights.wf(),
    ensures
        1 <= lights.anim_ticks() <= lights.idle_ticks(),
        lights.idle_ticks() == lights.hz,
        1000 * (lights.anim_ticks() - 1) < 33 * lights.hz <= 1000 * lights.anim_ticks(),
{
}

/// While either LED's effect is animated, or either LED is on its way to
/// another color, the next refresh is due 33 ms after the last, rounded up to
/// whole ticks; otherwise one second after it.
pub proof fn changing_lights_are_refreshed_fast(lights: Ws2812Indicator, now: u64)
    ensures
        ({
            let wait = PollingLoop::next_refresh(lights, now) - now;
            let changing = lights.inner_active || lights.outer_active || lights.cur_inner
                != lights.tgt_inner || lights.cur_outer != lights.tgt_outer;
            &&& wait == lights.interval_ticks()
            &&& changing <==> lights.animating()
            &&& changing ==> 1000 * (wait - 1) < 33 * lights.hz <= 1000 * wait
            &&& !changing ==> wait == lights.hz
        }),
{
}

/// The loop refreshes once the deadline has come, and waits for what is left
/// until then before.
pub proof fn loop_waits_for_the_deadline(polling: PollingLoop, now: u64)
    ensures
        polling.step_at(now) == PollStep::Update <==> now >= polling.deadline,
        polling.step_at(now) matches PollStep::Wait(ticks) ==> now + ticks == polling.deadline
            && ticks > 0,
{
}

/// After a refresh the deadline lies as far ahead as the cadence says, whatever
/// it was before; only where that lies past the clock's last tick, an error
/// comes and the deadline stays.
pub proof fn refresh_sets_the_deadline(
    polling: PollingLoop,
    lights: Ws2812Indicator,
    now: u64,
    next: PollingLoop,
    result: Result<(), ClockError>,
)
    requires
        polling.update_outcome(lights, now, next, result),
    ensures
        result is Ok <==> now + lights.interval_ticks() <= u64::MAX,
        result is Ok ==> next.deadline - now == lights.interval_ticks(),
        result matches Err(error) ==> error == ClockError::Exhausted && next == polling,
{
}

/// An event that has changed the lights moves the deadline to 33 ms from now,
/// rounded up to whole ticks, if that is sooner; any other event, and one so
/// late that the clock cannot count 33 ms more, leaves it.
pub proof fn event_pulls_the_deadline_in(
    polling: PollingLoop,
    lights: Ws2812Indicator,
    now: u64,
    soon: int,
    next: PollingLoop,
    result: Result<(), ClockError>,
)
    requires
        polling.event_outcome(lights, now, next, result),
        1000 * (soon - now - 1) < 33 * lights.hz <= 1000 * (soon - now),
    ensures
        result is Ok <==> !lights.pending || soon <= u64::MAX,
        result matches Err(error) ==> error == ClockError::Exhausted && next == polling,
        lights.pending && soon < polling.deadline ==> next.deadline == soon,
        !lights.pending || soon >= polling.deadline ==> next == polling,
{
}

} // verus!
