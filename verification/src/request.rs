//! What is asked of the timer facility: a schedule for the timer of one style.

use vstd::prelude::*;
use crate::interval::Interval;
use crate::timer::TimerStyle;

verus! {

/// How one timer runs: the time until it first expires and the period at
/// which it expires from then on. With both zero the timer is off.
#[derive(Clone, Copy, Debug, PartialEq, Eq, Structural)]
pub struct Schedule {
    pub interval: Interval,
    pub initial_delay: Interval,
}

impl Schedule {
    /// The timer fires `frequency` times a second, for the first time one
    /// full period from now.
    pub open spec fn periodic(frequency: int) -> Schedule {
        Schedule {
            interval: Interval::period(frequency),
            initial_delay: Interval::period(frequency),
        }
    }

    /// The timer is off.
    pub open spec fn off() -> Schedule {
        Schedule { interval: Interval::of_micros(0), initial_delay: Interval::of_micros(0) }
    }

    /// No part of the schedule is other than zero.
    pub open spec fn is_off(self) -> bool {
        self == Schedule::off()
    }

    /// Whether the schedule turns a timer off.
    pub fn cancels(&self) -> (c: bool)
        ensures
            c <==> self.is_off(),
    {
        self.interval.is_zero() && self.initial_delay.is_zero()
    }
}

/// One request to the timer facility: replace the schedule of the timer of
/// `style` with `schedule`. What the facility ran before is not asked for.
#[derive(Clone, Copy, Debug, PartialEq, Eq, Structural)]
pub struct TimerRequest {
    pub style: TimerStyle,
    pub schedule: Schedule,
}

impl TimerRequest {
    /// The request that starts a timer of `style` at `frequency` ticks a
    /// second.
    pub open spec fn arming(frequency: int, style: TimerStyle) -> TimerRequest {
        TimerRequest { style, schedule: Schedule::periodic(frequency) }
    }

    /// The request that stops the timer of `style`.
    pub open spec fn disarming(style: TimerStyle) -> TimerRequest {
        TimerRequest { style, schedule: Schedule::off() }
    }

    /// The number by which the facility knows the timer that is addressed.
    pub fn which(&self) -> (w: i32)
        ensures
            w == self.style.spec_code(),
    {
        self.style.code()
    }
}

} // verus!
