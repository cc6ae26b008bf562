//! Spans of time with millisecond resolution.

use vstd::prelude::*;

verus! {

/// A non-negative span of time, held as whole milliseconds.
#[derive(Clone, Copy, Debug, PartialEq, Eq, Structural)]
pub struct Duration {
    pub millis: u128,
}

impl View for Duration {
    type V = nat;

    /// The span in milliseconds.
    open spec fn view(&self) -> nat {
        self.millis as nat
    }
}

impl Duration {
    /// The longest span that can be represented.
    pub open spec fn max_millis() -> nat {
        u128::MAX as nat
    }

    /// The span that remains when `other` is taken away, never below zero.
    pub open spec fn spec_saturating_sub(self, other: Duration) -> Duration {
        if self.millis >= other.millis {
            Duration { millis: (self.millis - other.millis) as u128 }
        } else {
            Duration { millis: 0 }
        }
    }

    /// The sum of both spans, never above the longest representable span.
    pub open spec fn spec_saturating_add(self, other: Duration) -> Duration {
        if self.millis + other.millis <= u128::MAX {
            Duration { millis: (self.millis + other.millis) as u128 }
        } else {
            Duration { millis: u128::MAX }
        }
    }

    /// The empty span.
    pub fn zero() -> (d: Duration)
        ensures
            d@ == 0,
    {
        Duration { millis: 0 }
    }

    /// A span of `secs` whole seconds.
    pub fn from_secs(secs: u64) -> (d: Duration)
        ensures
            d@ == secs as nat * 1000,
    {
        let wide: u128 = secs as u128;
        Duration { millis: wide * 1000 }
    }

    /// A span of `millis` milliseconds.
    pub fn from_millis(millis: u64) -> (d: Duration)
        ensures
            d@ == millis as nat,
    {
        Duration { millis: millis as u128 }
    }

    /// The span in whole milliseconds.
    pub fn as_millis(&self) -> (m: u128)
        ensures
            m as nat == self@,
    {
        self.millis
    }

    /// The whole seconds of the span, rounded down.
    pub fn as_secs(&self) -> (s: u128)
        ensures
            s as nat == self@ / 1000,
    {
        self.millis / 1000
    }

    /// Whether the span is empty.
    pub fn is_zero(&self) -> (z: bool)
        ensures
            z == (self@ == 0),
    {
        self.millis == 0
    }

    /// Takes `other` away from this span, stopping at zero.
    pub fn saturating_sub(self, other: Duration) -> (d: Duration)
        ensures
            d == self.spec_saturating_sub(other),
            d@ == if self@ >= other@ { self@ - other@ } else { 0 },
    {
        if self.millis >= other.millis {
            Duration { millis: self.millis - other.millis }
        } else {
            Duration { millis: 0 }
        }
    }

    /// Adds `other` to this span, stopping at the longest representable span.
    pub fn saturating_add(self, other: Duration) -> (d: Duration)
        ensures
            d == self.spec_saturating_add(other),
            d@ == if self@ + other@ <= Self::max_millis() { self@ + other@ } else { Self::max_millis() },
    {
        if self.millis > u128::MAX - other.millis {
            Duration { millis: u128::MAX }
        } else {
            Duration { millis: self.millis + other.millis }
        }
    }
}

} // verus!
