//! The timer facility as the library sees it: one schedule for each style,
//! which a request replaces.

use vstd::prelude::*;
use crate::interval::Interval;
use crate::request::{Schedule, TimerRequest};
use crate::timer::TimerStyle;

verus! {

/// The schedules that the facility holds, one for each style of timer.
#[derive(Clone, Copy, Debug, PartialEq, Eq, Structural)]
pub struct TimerSlots {
    pub wall_clock: Schedule,
    pub cpu: Schedule,
}

impl TimerSlots {
    /// The schedule of the timer of `style`.
    pub open spec fn slot(self, style: TimerStyle) -> Schedule {
        match style {
            TimerStyle::WallClock => self.wall_clock,
            TimerStyle::Cpu => self.cpu,
        }
    }

    /// The slots once the facility has served `request`: the schedule of the
    /// style addressed is the one requested, the other is as it was.
    pub open spec fn apply(self, request: TimerRequest) -> TimerSlots {
        match request.style {
            TimerStyle::WallClock => TimerSlots { wall_clock: request.schedule, cpu: self.cpu },
            TimerStyle::Cpu => TimerSlots { wall_clock: self.wall_clock, cpu: request.schedule },
        }
    }

    /// The slots of a process that has armed no timer.
    pub fn idle() -> (s: TimerSlots)
        ensures
            s.wall_clock.is_off(),
            s.cpu.is_off(),
    {
        let off = Schedule {
            interval: Interval::zero(),
            initial_delay: Interval::zero(),
        };
        TimerSlots { wall_clock: off, cpu: off }
    }

    /// Reads the schedule of the timer of `style`.
    pub fn get(&self, style: TimerStyle) -> (schedule: Schedule)
        ensures
            schedule == self.slot(style),
    {
        match style {
            TimerStyle::WallClock => self.wall_clock,
            TimerStyle::Cpu => self.cpu,
        }
    }

    /// Serves `request` as the facility does, and returns the schedule that
    /// it replaced.
    pub fn set(&mut self, request: TimerRequest) -> (previous: Schedule)
        ensures
            *final(self) == old(self).apply(request),
            previous == old(self).slot(request.style),
    {
        let previous = self.get(request.style);
        match request.style {
            TimerStyle::WallClock => {
                self.wall_clock = request.schedule;
            },
            TimerStyle::Cpu => {
                self.cpu = request.schedule;
            },
        }
        previous
    }

    /// A request leaves the timer of the other style alone, and of two
    /// requests for one style the later decides: nothing of the earlier is
    /// left.
    pub proof fn lemma_last_request_wins(self, first: TimerRequest, second: TimerRequest)
        ensures
            self.apply(first).slot(first.style) == first.schedule,
            forall|other: TimerStyle|
                other != first.style ==> self.apply(first).slot(other) == self.slot(other),
            first.style == second.style ==> self.apply(first).apply(second) == self.apply(second),
            first.style != second.style ==> self.apply(first).apply(second) == self.apply(
                second,
            ).apply(first),
    {
    }

    /// Whatever ran before: once the cancelling request of a style is
    /// served, the timer of that style is off and the other timer runs on.
    pub proof fn lemma_disarm_turns_off(self, style: TimerStyle)
        ensures
            self.apply(TimerRequest::disarming(style)).slot(style).is_off(),
            forall|other: TimerStyle|
                other != style ==> self.apply(TimerRequest::disarming(style)).slot(other)
                    == self.slot(other),
    {
    }

    /// Two lives of a timer of one style, one after the other, do not touch
    /// each other: when the first has been armed and cancelled and the second
    /// is armed, the facility is as if the second alone had been.
    pub proof fn lemma_lifetimes_independent(self, first: int, second: int, style: TimerStyle)
        requires
            first > 0,
            second > 0,
        ensures
            self.apply(TimerRequest::arming(first, style)).apply(
                TimerRequest::disarming(style),
            ).apply(TimerRequest::arming(second, style)) == self.apply(
                TimerRequest::arming(second, style),
            ),
            self.apply(TimerRequest::arming(first, style)).apply(
                TimerRequest::disarming(style),
            ).apply(TimerRequest::arming(second, style)).slot(style) == Schedule::periodic(second),
    {
    }
}

} // verus!
