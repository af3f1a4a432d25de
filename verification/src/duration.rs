//! Spans of time, as the frame buffer and the playback clock measure them.

use vstd::prelude::*;

verus! {

/// A span of time, counted in nanoseconds.
#[derive(Clone, Copy, Debug, PartialEq, Eq, Structural)]
pub struct Duration {
    pub nanos: u128,
}

impl Duration {
    /// No time at all.
    pub fn zero() -> (span: Duration)
        ensures
            span.nanos == 0,
    {
        Duration { nanos: 0 }
    }

    /// The whole microseconds in this span, rounded down.
    pub open spec fn micros(self) -> nat {
        self.nanos as nat / 1000
    }

    /// The whole microseconds in this span, rounded down.
    pub fn as_micros(&self) -> (micros: u128)
        ensures
            micros == self.micros(),
            micros * 1000 <= self.nanos < (micros + 1) * 1000,
    {
        self.nanos / 1000
    }

    /// The time from `start` to this reading of the same clock, or none if
    /// `start` lies later.
    pub open spec fn since(self, start: Duration) -> Duration {
        if start.nanos <= self.nanos {
            Duration { nanos: (self.nanos - start.nanos) as u128 }
        } else {
            Duration { nanos: 0 }
        }
    }

    /// The time from `start` to this reading of the same clock, or none if
    /// `start` lies later.
    pub fn saturating_sub(&self, start: Duration) -> (span: Duration)
        ensures
            span == self.since(start),
            start.nanos <= self.nanos ==> span.nanos + start.nanos == self.nanos,
            start.nanos > self.nanos ==> span.nanos == 0,
    {
        if start.nanos <= self.nanos {
            Duration { nanos: self.nanos - start.nanos }
        } else {
            Duration { nanos: 0 }
        }
    }
}

/// A span lies between its whole microseconds and one more.
pub proof fn law_micros_round_down(span: Duration)
    ensures
        span.micros() * 1000 <= span.nanos < (span.micros() + 1) * 1000,
{
}

/// A start and the time since then add up to the reading of the clock; a start
/// that is still to come has no time since.
pub proof fn law_since_adds_up(now: Duration, start: Duration)
    ensures
        start.nanos <= now.nanos ==> start.nanos + now.since(start).nanos == now.nanos,
        start.nanos > now.nanos ==> now.since(start).nanos == 0,
{
}

} // verus!
