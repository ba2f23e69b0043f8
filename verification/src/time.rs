//! Clock readings and spans of time as plain numbers.
//!
//! The detector never reads a clock.  Its caller takes a reading of a
//! monotonic clock and hands it in as an [`Instant`]; spans are
//! [`Duration`]s.  Both count whole nanoseconds.

use vstd::prelude::*;

verus! {

/// Nanoseconds in one second.
pub const NANOS_PER_SEC: u128 = 1_000_000_000;

/// Nanoseconds in one millisecond.
pub const NANOS_PER_MILLI: u128 = 1_000_000;

/// A span of time in whole nanoseconds.
#[derive(Clone, Copy, Debug, PartialEq, Eq, PartialOrd, Ord, Hash, Structural)]
pub struct Duration {
    pub nanos: u128,
}

/// A reading of a monotonic clock: the nanoseconds since the clock's origin.
#[derive(Clone, Copy, Debug, PartialEq, Eq, PartialOrd, Ord, Hash, Structural)]
pub struct Instant {
    pub nanos: u128,
}

impl Duration {
    /// The span of `secs` whole seconds.
    pub open spec fn spec_from_secs(secs: u64) -> Duration {
        Duration { nanos: (secs * NANOS_PER_SEC) as u128 }
    }

    /// The span of `millis` whole milliseconds.
    pub open spec fn spec_from_millis(millis: u64) -> Duration {
        Duration { nanos: (millis * NANOS_PER_MILLI) as u128 }
    }

    /// The span of `secs` whole seconds.
    #[verifier::when_used_as_spec(spec_from_secs)]
    pub fn from_secs(secs: u64) -> (d: Self)
        ensures
            d == Self::spec_from_secs(secs),
            d.nanos == secs * NANOS_PER_SEC,
    {
        Duration { nanos: secs as u128 * NANOS_PER_SEC }
    }

    /// The span of `millis` whole milliseconds.
    #[verifier::when_used_as_spec(spec_from_millis)]
    pub fn from_millis(millis: u64) -> (d: Self)
        ensures
            d == Self::spec_from_millis(millis),
            d.nanos == millis * NANOS_PER_MILLI,
    {
        Duration { nanos: millis as u128 * NANOS_PER_MILLI }
    }

    /// The span of `nanos` nanoseconds.
    pub fn from_nanos(nanos: u128) -> (d: Self)
        ensures
            d.nanos == nanos,
    {
        Duration { nanos }
    }

    /// The span in nanoseconds.
    pub fn as_nanos(&self) -> (nanos: u128)
        ensures
            nanos == self.nanos,
    {
        self.nanos
    }
}

impl Instant {
    /// The reading `nanos` nanoseconds after the clock's origin.
    pub fn from_nanos(nanos: u128) -> (t: Self)
        ensures
            t.nanos == nanos,
    {
        Instant { nanos }
    }

    /// The time from `earlier` to `self`, and zero where `earlier` is the
    /// later of the two.
    pub open spec fn since(self, earlier: Instant) -> Duration {
        Duration {
            nanos: if self.nanos >= earlier.nanos {
                (self.nanos - earlier.nanos) as u128
            } else {
                0
            },
        }
    }

    /// The time from `earlier` to `self`, and zero where `earlier` is the
    /// later of the two.
    pub fn saturating_duration_since(&self, earlier: Instant) -> (d: Duration)
        ensures
            d == self.since(earlier),
    {
        if self.nanos >= earlier.nanos {
            Duration { nanos: self.nanos - earlier.nanos }
        } else {
            Duration { nanos: 0 }
        }
    }
}

} // verus!
