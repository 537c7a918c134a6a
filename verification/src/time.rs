//! Spans of time with nanosecond resolution.

use vstd::prelude::*;

verus! {

/// Nanoseconds in one second.
pub const NANOS_PER_SEC: u32 = 1_000_000_000;

/// Nanoseconds in one millisecond.
pub const NANOS_PER_MILLI: u32 = 1_000_000;

/// A span of time, counted in nanoseconds.
///
/// The range is that of `std::time::Duration`, from zero to
/// `u64::MAX` seconds and 999,999,999 nanoseconds. The view is the length of
/// the span in nanoseconds.
#[derive(Clone, Copy, Debug, PartialEq, Eq, Structural)]
pub struct Duration {
    nanos: u128,
}

/// The longest representable span, in nanoseconds.
pub open spec fn max_nanos() -> nat {
    (u64::MAX * NANOS_PER_SEC + (NANOS_PER_SEC - 1)) as nat
}

/// The length in nanoseconds of a span of `millis` milliseconds.
pub open spec fn millis_to_nanos(millis: int) -> int {
    millis * NANOS_PER_MILLI
}

/// The sum of spans, in nanoseconds.
pub open spec fn total(durations: Seq<Duration>) -> nat
    decreases durations.len(),
{
    if durations.len() == 0 {
        0
    } else {
        total(durations.drop_last()) + durations.last()@
    }
}

/// A span is known by its length: spans of equal lengths are equal.
pub proof fn lemma_equal_lengths(left: Duration, right: Duration)
    requires
        left@ == right@,
    ensures
        left == right,
{
}

impl View for Duration {
    type V = nat;

    closed spec fn view(&self) -> nat {
        self.nanos as nat
    }
}

impl Duration {
    #[verifier::type_invariant]
    spec fn representable(self) -> bool {
        self.nanos <= max_nanos()
    }

    /// Whole seconds of the span.
    pub open spec fn spec_secs(self) -> nat {
        self@ / (NANOS_PER_SEC as nat)
    }

    /// Nanoseconds of the span beyond its whole seconds.
    pub open spec fn spec_subsec_nanos(self) -> nat {
        self@ % (NANOS_PER_SEC as nat)
    }

    /// Whole milliseconds of the span.
    pub open spec fn spec_millis(self) -> nat {
        self@ / (NANOS_PER_MILLI as nat)
    }

    /// The span of the given seconds and nanoseconds; nanoseconds beyond a
    /// second carry over into the seconds.
    pub fn new(secs: u64, nanos: u32) -> (d: Self)
        requires
            secs + nanos / NANOS_PER_SEC <= u64::MAX,
        ensures
            d@ == secs * NANOS_PER_SEC + nanos,
    {
        Duration { nanos: secs as u128 * NANOS_PER_SEC as u128 + nanos as u128 }
    }

    /// The empty span.
    pub fn zero() -> (d: Self)
        ensures
            d@ == 0,
    {
        Duration { nanos: 0 }
    }

    /// The longest representable span.
    pub fn max() -> (d: Self)
        ensures
            d@ == max_nanos(),
    {
        Duration { nanos: u64::MAX as u128 * NANOS_PER_SEC as u128 + (NANOS_PER_SEC - 1) as u128 }
    }

    /// The span of a whole number of seconds.
    pub fn from_secs(secs: u64) -> (d: Self)
        ensures
            d@ == secs * NANOS_PER_SEC,
    {
        assert(secs * NANOS_PER_SEC <= max_nanos());
        Duration { nanos: secs as u128 * NANOS_PER_SEC as u128 }
    }

    /// The span of a whole number of milliseconds.
    pub fn from_millis(millis: u64) -> (d: Self)
        ensures
            d@ == millis_to_nanos(millis as int),
    {
        assert(millis * NANOS_PER_MILLI <= max_nanos());
        Duration { nanos: millis as u128 * NANOS_PER_MILLI as u128 }
    }

    /// Whole seconds of the span.
    pub fn as_secs(self) -> (secs: u64)
        ensures
            secs == self.spec_secs(),
    {
        proof {
            use_type_invariant(self);
        }
        (self.nanos / NANOS_PER_SEC as u128) as u64
    }

    /// Nanoseconds of the span beyond its whole seconds.
    pub fn subsec_nanos(self) -> (nanos: u32)
        ensures
            nanos == self.spec_subsec_nanos(),
            nanos < NANOS_PER_SEC,
    {
        proof {
            use_type_invariant(self);
        }
        (self.nanos % NANOS_PER_SEC as u128) as u32
    }

    /// Whole milliseconds of the span; a fraction is dropped.
    pub fn as_millis(self) -> (millis: u128)
        ensures
            millis == self.spec_millis(),
    {
        proof {
            use_type_invariant(self);
        }
        self.nanos / NANOS_PER_MILLI as u128
    }

    /// Whole milliseconds of the span, or `u64::MAX` where they exceed it.
    pub fn saturating_millis(self) -> (millis: u64)
        ensures
            millis == if self.spec_millis() <= u64::MAX {
                self.spec_millis()
            } else {
                u64::MAX as nat
            },
    {
        let millis: u128 = self.as_millis();
        if millis <= u64::MAX as u128 {
            millis as u64
        } else {
            u64::MAX
        }
    }

    /// The sum of two spans, or `None` where it is not representable.
    pub fn checked_add(self, other: Self) -> (sum: Option<Self>)
        ensures
            match sum {
                Some(d) => d@ == self@ + other@,
                None => self@ + other@ > max_nanos(),
            },
    {
        proof {
            use_type_invariant(self);
            use_type_invariant(other);
        }
        let nanos: u128 = self.nanos + other.nanos;
        if nanos <= Self::max().nanos {
            Some(Duration { nanos })
        } else {
            None
        }
    }
}

} // verus!
