//! Points and spans of the monotonic clock, counted in nanoseconds.
pub mod laws;

use vstd::prelude::*;

verus! {

/// A span of time.
#[derive(Clone, Copy, Debug, PartialEq, Eq, Structural)]
pub struct Duration {
    pub nanos: u128,
}

impl View for Duration {
    type V = nat;

    /// The span in nanoseconds.
    open spec fn view(&self) -> nat {
        self.nanos as nat
    }
}

impl Duration {
    pub fn from_nanos(nanos: u128) -> (r: Self)
        ensures
            r@ == nanos,
    {
        Duration { nanos }
    }

    /// The span of so many milliseconds.
    pub open spec fn of_millis(millis: u64) -> Self {
        Duration { nanos: (millis * 1_000_000) as u128 }
    }

    pub fn from_millis(millis: u64) -> (r: Self)
        ensures
            r == Duration::of_millis(millis),
            r@ == millis * 1_000_000,
    {
        Duration { nanos: (millis as u128) * 1_000_000 }
    }

    pub fn from_secs(secs: u64) -> (r: Self)
        ensures
            r@ == secs * 1_000_000_000,
    {
        Duration { nanos: (secs as u128) * 1_000_000_000 }
    }

    pub fn is_zero(&self) -> (r: bool)
        ensures
            r == (self@ == 0),
    {
        self.nanos == 0
    }

    /// The span in whole milliseconds.
    pub fn as_millis(&self) -> (r: u128)
        ensures
            r == self@ / 1_000_000,
    {
        self.nanos / 1_000_000
    }

    /// The span in nanoseconds.
    pub fn as_nanos(&self) -> (r: u128)
        ensures
            r == self@,
    {
        self.nanos
    }
}

/// A point in time, as the nanoseconds since the clock's origin.
#[derive(Clone, Copy, Debug, PartialEq, Eq, Structural)]
pub struct Instant {
    pub nanos: u128,
}

impl View for Instant {
    type V = nat;

    /// The nanoseconds since the clock's origin.
    open spec fn view(&self) -> nat {
        self.nanos as nat
    }
}

impl Instant {
    pub fn from_nanos(nanos: u128) -> (r: Self)
        ensures
            r@ == nanos,
    {
        Instant { nanos }
    }

    /// The point that is `span` later, where the clock can hold it.
    pub fn checked_add(&self, span: Duration) -> (r: Option<Instant>)
        ensures
            r == self.later(span),
    {
        match self.nanos.checked_add(span.nanos) {
            Some(nanos) => Some(Instant { nanos }),
            None => None,
        }
    }

    /// The point that is `span` later, where the clock can hold it.
    pub open spec fn later(self, span: Duration) -> Option<Instant> {
        if self@ + span@ <= u128::MAX {
            Some(Instant { nanos: (self@ + span@) as u128 })
        } else {
            None
        }
    }

    /// How long it is from `now` to this point; nothing where it has passed.
    pub fn until(&self, now: Instant) -> (r: Duration)
        ensures
            r == self.time_left(now),
    {
        if self.nanos >= now.nanos {
            Duration { nanos: self.nanos - now.nanos }
        } else {
            Duration { nanos: 0 }
        }
    }

    /// How long it is from `now` to this point; nothing where it has passed.
    pub open spec fn time_left(self, now: Instant) -> Duration {
        Duration {
            nanos: if self@ >= now@ {
                (self@ - now@) as u128
            } else {
                0
            },
        }
    }

    /// Whether this point is not after `other`.
    pub fn is_at_or_before(&self, other: Instant) -> (r: bool)
        ensures
            r == (self@ <= other@),
    {
        self.nanos <= other.nanos
    }
}

/// A span in whole milliseconds, held at `u64::MAX` where it is longer.
pub fn duration_millis(duration: Duration) -> (r: u64)
    ensures
        r == if duration@ / 1_000_000 <= u64::MAX {
            duration@ / 1_000_000
        } else {
            u64::MAX as nat
        },
{
    let millis: u128 = duration.as_millis();
    if millis <= 0xffff_ffff_ffff_ffff {
        millis as u64
    } else {
        u64::MAX
    }
}

} // verus!
