//! Lengths of time.
use vstd::prelude::*;

verus! {

/// A length of time, to the nanosecond.
#[derive(Clone, Copy, Debug, PartialEq, Eq, PartialOrd, Ord, Structural)]
pub struct Duration {
    pub nanos: u128,
}

pub const NANOS_PER_SEC: u128 = 1_000_000_000;

pub const NANOS_PER_MILLI: u128 = 1_000_000;

impl Duration {
    /// `secs` seconds.
    pub fn from_secs(secs: u64) -> (d: Duration)
        ensures
            d.nanos == secs * NANOS_PER_SEC,
    {
        Duration { nanos: secs as u128 * NANOS_PER_SEC }
    }

    /// `millis` thousandths of a second.
    pub fn from_millis(millis: u64) -> (d: Duration)
        ensures
            d.nanos == millis * NANOS_PER_MILLI,
    {
        Duration { nanos: millis as u128 * NANOS_PER_MILLI }
    }

    /// The shorter one.
    pub fn min(self, other: Duration) -> (d: Duration)
        ensures
            d.nanos == if self.nanos <= other.nanos {
                self.nanos
            } else {
                other.nanos
            },
    {
        if self.nanos <= other.nanos {
            self
        } else {
            other
        }
    }

    /// Twice as long, or the longest time there is.
    pub fn doubled(self) -> (d: Duration)
        ensures
            d.nanos == if self.nanos * 2 <= u128::MAX {
                (self.nanos * 2) as u128
            } else {
                u128::MAX
            },
    {
        if self.nanos <= u128::MAX / 2 {
            Duration { nanos: self.nanos * 2 }
        } else {
            Duration { nanos: u128::MAX }
        }
    }
}

/// A second is a thousand thousandths of one, and a thousandth a million nanoseconds.
pub proof fn law_seconds_are_thousands_of_millis(secs: u64, millis: u64, a: Duration, b: Duration)
    requires
        call_ensures(Duration::from_secs, (secs,), a),
        call_ensures(Duration::from_millis, (millis,), b),
    ensures
        a.nanos == secs * 1_000_000_000,
        b.nanos == millis * 1_000_000,
        millis == secs * 1000 ==> a == b,
{
}

/// The shorter of two lengths of time is one of them, and neither is shorter.
pub proof fn law_min_is_the_shorter(a: Duration, b: Duration, d: Duration)
    requires
        call_ensures(Duration::min, (a, b), d),
    ensures
        d == a || d == b,
        d.nanos <= a.nanos,
        d.nanos <= b.nanos,
{
}

/// Twice a length of time is that length added to itself, unless there is none so long.
pub proof fn law_doubled_is_twice_as_long(a: Duration, d: Duration)
    requires
        call_ensures(Duration::doubled, (a,), d),
    ensures
        a.nanos + a.nanos <= u128::MAX ==> d.nanos == a.nanos + a.nanos,
        a.nanos + a.nanos > u128::MAX ==> d.nanos == u128::MAX,
{
}

} // verus!
