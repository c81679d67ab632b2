//! Durations as the timer facility takes them: whole seconds and a remainder
//! in microseconds.

use vstd::prelude::*;

verus! {

/// Microseconds in one second.
pub const MICROS_PER_SEC: i64 = 1_000_000;

/// A duration split into whole seconds and microseconds.
#[derive(Clone, Copy, Debug, PartialEq, Eq, Structural)]
pub struct Interval {
    pub sec: i64,
    pub usec: i64,
}

impl Interval {
    /// The length of the duration in microseconds.
    pub open spec fn micros(self) -> int {
        self.sec * 1_000_000 + self.usec
    }

    /// The duration is not negative and its microsecond part is less than a
    /// second. Every length has exactly one such representation.
    pub open spec fn normalized(self) -> bool {
        0 <= self.sec && 0 <= self.usec < 1_000_000
    }

    /// The normalized duration of `micros` microseconds.
    pub open spec fn of_micros(micros: int) -> Interval {
        Interval { sec: (micros / 1_000_000) as i64, usec: (micros % 1_000_000) as i64 }
    }

    /// The period of a timer that fires `frequency` times a second: a
    /// millionth part of a second for each tick, the fraction of a
    /// microsecond cut off.
    pub open spec fn period(frequency: int) -> Interval {
        Interval::of_micros(1_000_000int / frequency)
    }

    /// The duration of no time at all, which cancels a timer.
    pub fn zero() -> (r: Interval)
        ensures
            r.sec == 0,
            r.usec == 0,
            r == Interval::of_micros(0),
    {
        Interval { sec: 0, usec: 0 }
    }

    /// Splits a number of microseconds into seconds and the rest.
    pub fn from_micros(micros: i64) -> (r: Interval)
        requires
            micros >= 0,
        ensures
            r == Interval::of_micros(micros as int),
            r.normalized(),
            r.micros() == micros,
    {
        Interval { sec: micros / MICROS_PER_SEC, usec: micros % MICROS_PER_SEC }
    }

    /// The period of `frequency` ticks per second.
    pub fn from_frequency(frequency: i32) -> (r: Interval)
        requires
            frequency > 0,
        ensures
            r == Interval::period(frequency as int),
            r.normalized(),
            r.micros() == 1_000_000int / (frequency as int),
    {
        let ticks: i64 = frequency as i64;
        let period_us: i64 = MICROS_PER_SEC / ticks;
        Interval::from_micros(period_us)
    }

    /// Whether both parts are zero.
    pub fn is_zero(&self) -> (z: bool)
        ensures
            z <==> (self.sec == 0 && self.usec == 0),
    {
        self.sec == 0 && self.usec == 0
    }

    /// A length has one normalized representation: two normalized durations
    /// of the same length have the same seconds and the same microseconds.
    pub proof fn lemma_normalized_unique(a: Interval, b: Interval)
        requires
            a.normalized(),
            b.normalized(),
            a.micros() == b.micros(),
        ensures
            a == b,
    {
    }

    /// The period of any positive frequency is normalized and is as long as
    /// the quotient of a million by the frequency: between nothing and one
    /// second.
    pub proof fn lemma_period_is_quotient(frequency: int)
        requires
            frequency > 0,
        ensures
            Interval::period(frequency).normalized(),
            Interval::period(frequency).micros() == 1_000_000int / frequency,
            0 <= Interval::period(frequency).micros() <= 1_000_000,
    {
        let q = 1_000_000int / frequency;
        assert(0 <= q <= 1_000_000) by (nonlinear_arith)
            requires
                frequency > 0,
                q == 1_000_000int / frequency,
        ;
    }

    /// A frequency that divides a million has a period without drift:
    /// `frequency` periods make up one second exactly. Above one tick a
    /// second the period is zero seconds and a million over `frequency`
    /// microseconds; at one tick a second it is one second and no
    /// microseconds.
    pub proof fn lemma_divisor_period_exact(frequency: int)
        requires
            frequency > 0,
            1_000_000int % frequency == 0,
        ensures
            Interval::period(frequency).micros() * frequency == 1_000_000,
            frequency > 1 ==> Interval::period(frequency).sec == 0
                && Interval::period(frequency).usec == 1_000_000int / frequency,
            frequency == 1 ==> Interval::period(frequency).sec == 1
                && Interval::period(frequency).usec == 0,
    {
        Interval::lemma_period_is_quotient(frequency);
        Interval::lemma_quotient_bounds(frequency);
    }

    /// A frequency that does not divide a million has its period cut down to
    /// whole microseconds: zero seconds and the truncated quotient. The
    /// remainder of the division is lost in every second, and it is not
    /// nothing.
    pub proof fn lemma_other_period_truncated(frequency: int)
        requires
            frequency > 0,
            1_000_000int % frequency != 0,
        ensures
            Interval::period(frequency).sec == 0,
            Interval::period(frequency).usec == 1_000_000int / frequency,
            Interval::period(frequency).usec * frequency < 1_000_000,
            1_000_000 < (Interval::period(frequency).usec + 1) * frequency,
            1_000_000 - Interval::period(frequency).usec * frequency == 1_000_000int % frequency,
    {
        Interval::lemma_period_is_quotient(frequency);
        Interval::lemma_quotient_bounds(frequency);
    }

    /// The period is no time at all exactly for the frequencies above a
    /// million: a timer asked to tick faster than once a microsecond is
    /// given the schedule that turns it off.
    pub proof fn lemma_period_vanishes(frequency: int)
        requires
            frequency > 0,
        ensures
            Interval::period(frequency) == Interval::of_micros(0) <==> frequency > 1_000_000,
    {
        Interval::lemma_period_is_quotient(frequency);
        Interval::lemma_quotient_bounds(frequency);
    }

    /// What truncating division says of a million and a positive divisor.
    proof fn lemma_quotient_bounds(frequency: int)
        requires
            frequency > 0,
        ensures
            (1_000_000int / frequency) * frequency + 1_000_000int % frequency == 1_000_000,
            0 <= 1_000_000int % frequency < frequency,
            (1_000_000int / frequency) * frequency <= 1_000_000,
            1_000_000 < (1_000_000int / frequency + 1) * frequency,
            frequency > 1 ==> 1_000_000int / frequency < 1_000_000,
            frequency == 1 ==> 1_000_000int / frequency == 1_000_000,
            1_000_000int / frequency == 0 <==> frequency > 1_000_000,
    {
        let q = 1_000_000int / frequency;
        let r = 1_000_000int % frequency;
        assert(q * frequency + r == 1_000_000 && 0 <= r < frequency) by (nonlinear_arith)
            requires
                frequency > 0,
                q == 1_000_000int / frequency,
                r == 1_000_000int % frequency,
        ;
        assert((q + 1) * frequency == q * frequency + frequency) by (nonlinear_arith);
        assert(q >= 0) by (nonlinear_arith)
            requires
                frequency > 0,
                q == 1_000_000int / frequency,
        ;
        if frequency > 1 {
            assert(q < 1_000_000) by (nonlinear_arith)
                requires
                    frequency > 1,
                    q >= 0,
                    q * frequency <= 1_000_000,
            ;
        }
        if q == 0 {
            assert(q * frequency == 0) by (nonlinear_arith)
                requires
                    q == 0,
            ;
        }
        if frequency > 1_000_000 && q >= 1 {
            assert(q * frequency >= frequency) by (nonlinear_arith)
                requires
                    q >= 1,
                    frequency > 0,
            ;
        }
    }
}

} // verus!
