//! The timer handle and the styles of timer it can own.

use vstd::prelude::*;
use crate::interval::Interval;
use crate::request::{Schedule, TimerRequest};

verus! {

/// The clock by which a timer counts.
#[derive(Clone, Copy, Debug, PartialEq, Eq, Structural)]
pub enum TimerStyle {
    /// Real elapsed time, whether or not the process runs.
    WallClock,
    /// Time the process spends executing, in user and system mode.
    Cpu,
}

impl TimerStyle {
    /// The facility's number for the style. It is fixed: 0 for the
    /// wall-clock timer, 2 for the timer that counts processor time.
    pub open spec fn spec_code(self) -> i32 {
        match self {
            TimerStyle::WallClock => 0,
            TimerStyle::Cpu => 2,
        }
    }

    /// The facility's number for the style.
    #[verifier::when_used_as_spec(spec_code)]
    pub fn code(self) -> (c: i32)
        ensures
            c == self.spec_code(),
    {
        match self {
            TimerStyle::WallClock => 0,
            TimerStyle::Cpu => 2,
        }
    }

    /// The two styles have different numbers, so the requests that arm a
    /// wall-clock timer and a processor-time timer, at whatever frequencies,
    /// address different timers, and neither can stand for the other.
    pub proof fn lemma_styles_distinct(a: TimerStyle, b: TimerStyle, first: int, second: int)
        ensures
            TimerStyle::WallClock.spec_code() != TimerStyle::Cpu.spec_code(),
            a.spec_code() == b.spec_code() <==> a == b,
            TimerRequest::arming(first, a).style.spec_code() == TimerRequest::arming(
                second,
                b,
            ).style.spec_code() <==> a == b,
    {
    }
}

/// What a handle records of the timer it owns.
pub struct TimerView {
    pub frequency: int,
    pub style: TimerStyle,
}

/// The owner of one armed timer.
///
/// Making the handle yields the request that arms the timer; giving it up
/// yields the request that cancels it. A handle cannot be copied, so the
/// cancelling request of a timer is made once. The facility has one timer for
/// each style: while a handle lives, no second handle of its style should.
#[derive(Debug)]
pub struct Timer {
    frequency: i32,
    style: TimerStyle,
}

impl View for Timer {
    type V = TimerView;

    closed spec fn view(&self) -> TimerView {
        TimerView { frequency: self.frequency as int, style: self.style }
    }
}

impl Timer {
    #[verifier::type_invariant]
    spec fn positive_frequency(self) -> bool {
        self.frequency > 0
    }

    /// Makes the handle of a timer of `style` that fires `frequency` times a
    /// second, together with the request that arms it. The period is a
    /// second divided by `frequency`, in whole microseconds; the timer first
    /// fires one period after it is armed.
    pub fn new(frequency: i32, style: TimerStyle) -> (r: (Timer, TimerRequest))
        requires
            frequency > 0,
        ensures
            r.0@.frequency == frequency,
            r.0@.style == style,
            r.1 == TimerRequest::arming(frequency as int, style),
            r.1.style == style,
            r.1.schedule.interval.normalized(),
            r.1.schedule.interval.micros() == 1_000_000int / (frequency as int),
            r.1.schedule.initial_delay == r.1.schedule.interval,
    {
        let interval = Interval::from_frequency(frequency);
        let initial_delay = interval;
        let request = TimerRequest { style, schedule: Schedule { interval, initial_delay } };
        (Timer { frequency, style }, request)
    }

    /// Gives the handle up and yields the request that cancels its timer: a
    /// schedule of all zeros for the style that the handle was made with.
    pub fn disarm(self) -> (request: TimerRequest)
        ensures
            request == TimerRequest::disarming(self@.style),
            request.style == self@.style,
            request.schedule.interval.sec == 0,
            request.schedule.interval.usec == 0,
            request.schedule.initial_delay.sec == 0,
            request.schedule.initial_delay.usec == 0,
    {
        let interval = Interval::zero();
        let initial_delay = interval;
        TimerRequest { style: self.style, schedule: Schedule { interval, initial_delay } }
    }

    /// The ticks per second that the timer was armed with.
    pub fn frequency(&self) -> (f: i32)
        ensures
            f == self@.frequency,
            f > 0,
    {
        proof {
            use_type_invariant(self);
        }
        self.frequency
    }

    /// The style of the timer that the handle owns.
    pub fn style(&self) -> (s: TimerStyle)
        ensures
            s == self@.style,
    {
        self.style
    }
}

} // verus!
