//! Points in time and the signed spans between them, in milliseconds.

use vstd::prelude::*;

verus! {

/// A point in time, as milliseconds since the Unix epoch.
#[derive(Debug, Clone, Copy, PartialEq, Eq, Structural)]
pub struct Timestamp {
    pub millis: i64,
}

/// A signed span of time in milliseconds: positive towards the future,
/// negative for what is past. It is wide enough for the span between any
/// two timestamps.
#[derive(Debug, Clone, Copy, PartialEq, Eq, Structural)]
pub struct TimeSpan {
    pub millis: i128,
}

/// The magnitude of a signed number of milliseconds.
pub open spec fn magnitude(millis: int) -> nat {
    if millis < 0 {
        (-millis) as nat
    } else {
        millis as nat
    }
}

/// The whole seconds in the magnitude of a signed number of milliseconds:
/// what is left of a second is dropped.
pub open spec fn whole_seconds(millis: int) -> nat {
    magnitude(millis) / 1000
}

impl View for TimeSpan {
    type V = int;

    /// The span as a signed number of milliseconds.
    open spec fn view(&self) -> int {
        self.millis as int
    }
}

impl TimeSpan {
    /// The span of `millis` milliseconds.
    pub fn from_millis(millis: i64) -> (span: TimeSpan)
        ensures
            span@ == millis,
    {
        TimeSpan { millis: millis as i128 }
    }

    /// The span that leads from `from` to `to`: negative when `to` lies
    /// before `from`.
    pub fn between(from: Timestamp, to: Timestamp) -> (span: TimeSpan)
        ensures
            span@ == to.millis - from.millis,
    {
        TimeSpan { millis: (to.millis as i128) - (from.millis as i128) }
    }

    /// Whether the span points into the past.
    pub fn is_negative(&self) -> (negative: bool)
        ensures
            negative == (self@ < 0),
    {
        self.millis < 0
    }

    /// The magnitude of the span in milliseconds.
    pub fn magnitude(&self) -> (millis: u128)
        ensures
            millis == magnitude(self@),
    {
        if self.millis < 0 {
            let below: i128 = -(self.millis + 1);
            (below as u128) + 1
        } else {
            self.millis as u128
        }
    }

    /// The whole seconds in the span's magnitude.
    pub fn whole_seconds(&self) -> (seconds: u128)
        ensures
            seconds == whole_seconds(self@),
    {
        self.magnitude() / 1000
    }
}

} // verus!
