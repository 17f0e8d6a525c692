//! Spans of time and points in time, counted in whole nanoseconds.

use vstd::prelude::*;

verus! {

/// Nanoseconds in one second.
pub open spec fn nanos_per_sec() -> nat {
    1_000_000_000
}

/// The longest span a [`Duration`] holds, in nanoseconds: `u64::MAX` whole
/// seconds and `999_999_999` nanoseconds.
pub open spec fn max_nanos() -> nat {
    18_446_744_073_709_551_615 * 1_000_000_000 + 999_999_999
}

/// A span of time with nanosecond precision, as long as `u64::MAX` seconds
/// and `999_999_999` nanoseconds at most.
///
/// Its view is the span in nanoseconds.
#[derive(Clone, Copy, Debug, PartialEq, Eq, Structural)]
pub struct Duration {
    nanos: u128,
}

impl Duration {
    #[verifier::type_invariant]
    closed spec fn in_range(self) -> bool {
        self.nanos <= max_nanos()
    }

    /// The span of no time at all.
    pub fn zero() -> (d: Duration)
        ensures
            d@ == 0,
    {
        Duration { nanos: 0 }
    }

    /// A span of `secs` seconds and `nanos` nanoseconds; nanoseconds beyond a
    /// second carry over into the seconds.
    pub fn new(secs: u64, nanos: u32) -> (d: Duration)
        requires
            secs * nanos_per_sec() + nanos <= max_nanos(),
        ensures
            d@ == secs * nanos_per_sec() + nanos,
    {
        let total: u128 = (secs as u128) * 1_000_000_000u128 + (nanos as u128);
        Duration { nanos: total }
    }

    /// A span of whole seconds.
    pub fn from_secs(secs: u64) -> (d: Duration)
        ensures
            d@ == secs * nanos_per_sec(),
    {
        Duration { nanos: (secs as u128) * 1_000_000_000u128 }
    }

    /// A span of whole milliseconds.
    pub fn from_millis(millis: u64) -> (d: Duration)
        ensures
            d@ == millis * 1_000_000,
    {
        Duration { nanos: (millis as u128) * 1_000_000u128 }
    }

    /// A span of whole nanoseconds.
    pub fn from_nanos(nanos: u64) -> (d: Duration)
        ensures
            d@ == nanos,
    {
        Duration { nanos: nanos as u128 }
    }

    /// The whole seconds of the span.
    pub fn as_secs(&self) -> (s: u64)
        ensures
            s == self@ / nanos_per_sec(),
    {
        proof {
            use_type_invariant(self);
        }
        (self.nanos / 1_000_000_000u128) as u64
    }

    /// The nanoseconds of the span beyond its whole seconds.
    pub fn subsec_nanos(&self) -> (n: u32)
        ensures
            n == self@ % nanos_per_sec(),
            n < nanos_per_sec(),
    {
        (self.nanos % 1_000_000_000u128) as u32
    }

    /// The whole span in nanoseconds.
    pub fn as_nanos(&self) -> (n: u128)
        ensures
            n == self@,
            n <= max_nanos(),
    {
        proof {
            use_type_invariant(self);
        }
        self.nanos
    }

    /// The sum of two spans, or `None` where it is longer than a `Duration` holds.
    pub fn checked_add(self, other: Duration) -> (r: Option<Duration>)
        ensures
            r is Some <==> self@ + other@ <= max_nanos(),
            r matches Some(d) ==> d@ == self@ + other@,
    {
        proof {
            use_type_invariant(&self);
            use_type_invariant(&other);
        }
        let sum: u128 = self.nanos + other.nanos;
        if sum <= 18_446_744_073_709_551_615u128 * 1_000_000_000u128 + 999_999_999u128 {
            Some(Duration { nanos: sum })
        } else {
            None
        }
    }

    /// The sum of two spans; the sum must fit in a `Duration`.
    pub fn add(self, other: Duration) -> (d: Duration)
        requires
            self@ + other@ <= max_nanos(),
        ensures
            d@ == self@ + other@,
    {
        Duration { nanos: self.nanos + other.nanos }
    }

    /// The difference of two spans, or `None` where `other` is the longer one.
    pub fn checked_sub(self, other: Duration) -> (r: Option<Duration>)
        ensures
            r is Some <==> other@ <= self@,
            r matches Some(d) ==> d@ == self@ - other@,
    {
        proof {
            use_type_invariant(&self);
        }
        if other.nanos <= self.nanos {
            Some(Duration { nanos: self.nanos - other.nanos })
        } else {
            None
        }
    }

    /// The difference of two spans, or zero where `other` is the longer one.
    pub fn saturating_sub(self, other: Duration) -> (d: Duration)
        ensures
            d@ == if other@ <= self@ { self@ - other@ } else { 0 },
    {
        proof {
            use_type_invariant(&self);
        }
        if other.nanos <= self.nanos {
            Duration { nanos: self.nanos - other.nanos }
        } else {
            Duration { nanos: 0 }
        }
    }

    /// The shorter of two spans.
    pub fn min(self, other: Duration) -> (d: Duration)
        ensures
            d@ == if self@ <= other@ { self@ } else { other@ },
            d == self || d == other,
    {
        if self.nanos <= other.nanos {
            self
        } else {
            other
        }
    }

    /// Whether this span is shorter than `other`.
    pub fn is_shorter_than(&self, other: &Duration) -> (b: bool)
        ensures
            b == (self@ < other@),
    {
        self.nanos < other.nanos
    }

    /// Two durations are the same value exactly when they are equally long.
    pub proof fn lemma_view_determines(a: Duration, b: Duration)
        ensures
            (a@ == b@) == (a == b),
    {
    }
}

impl View for Duration {
    type V = nat;

    closed spec fn view(&self) -> nat {
        self.nanos as nat
    }
}

/// A point in time, held as the span since the origin of the clock it was read from.
#[derive(Clone, Copy, Debug, PartialEq, Eq, Structural)]
pub struct Instant {
    since_origin: Duration,
}

impl Instant {
    /// The point `d` after the clock's origin.
    pub fn from_origin(d: Duration) -> (t: Instant)
        ensures
            t@ == d@,
    {
        Instant { since_origin: d }
    }

    /// The span from the clock's origin to this point.
    pub fn since_origin(&self) -> (d: Duration)
        ensures
            d@ == self@,
    {
        self.since_origin
    }

    /// The point `d` later than this one; it must lie within the clock's range.
    pub fn add(self, d: Duration) -> (t: Instant)
        requires
            self@ + d@ <= max_nanos(),
        ensures
            t@ == self@ + d@,
    {
        Instant { since_origin: self.since_origin.add(d) }
    }

    /// The span from `earlier` to this point, or zero where `earlier` is later.
    pub fn duration_since(&self, earlier: &Instant) -> (d: Duration)
        ensures
            d@ == if earlier@ <= self@ { self@ - earlier@ } else { 0 },
    {
        self.since_origin.saturating_sub(earlier.since_origin)
    }

    /// Two instants are the same value exactly when they lie equally far from the origin.
    pub proof fn lemma_view_determines(a: Instant, b: Instant)
        ensures
            (a@ == b@) == (a == b),
    {
        Duration::lemma_view_determines(a.since_origin, b.since_origin);
    }
}

impl View for Instant {
    type V = nat;

    closed spec fn view(&self) -> nat {
        self.since_origin@
    }
}

} // verus!
