//! Lengths of time, held as whole seconds and a fraction in nanoseconds.

use vstd::prelude::*;

verus! {

/// Nanoseconds in one second.
pub const NANOS_PER_SEC: u32 = 1_000_000_000;

/// A length of time with nanosecond resolution.
///
/// The fraction is always below one second, so two spans of equal length are
/// equal values.
#[derive(Debug, Clone, Copy, PartialEq, Eq, Structural)]
pub struct TimeSpan {
    secs: u64,
    nanos: u32,
}

impl TimeSpan {
    #[verifier::type_invariant]
    spec fn fraction_in_range(self) -> bool {
        self.nanos < NANOS_PER_SEC
    }

    /// Whole seconds of the span.
    pub closed spec fn spec_secs(self) -> int {
        self.secs as int
    }

    /// Nanoseconds beyond the whole seconds.
    pub closed spec fn spec_nanos(self) -> int {
        self.nanos as int
    }

    /// The span as one number of nanoseconds.
    pub open spec fn total_nanos(self) -> int {
        self.spec_secs() * 1_000_000_000 + self.spec_nanos()
    }

    /// A span of `secs` whole seconds.
    pub fn from_secs(secs: u64) -> (span: Self)
        ensures
            span.spec_secs() == secs,
            span.spec_nanos() == 0,
    {
        TimeSpan { secs, nanos: 0 }
    }

    /// A span of `millis` milliseconds.
    pub fn from_millis(millis: u64) -> (span: Self)
        ensures
            span.spec_secs() == millis / 1000,
            span.spec_nanos() == (millis % 1000) * 1_000_000,
            span.total_nanos() == millis * 1_000_000,
    {
        let secs: u64 = millis / 1000;
        let rest: u64 = millis % 1000;
        let nanos: u32 = (rest as u32) * 1_000_000;
        TimeSpan { secs, nanos }
    }

    /// A span of `secs` seconds and `nanos` nanoseconds; none where `nanos`
    /// reaches a whole second.
    pub fn new(secs: u64, nanos: u32) -> (span: Option<Self>)
        ensures
            span is Some <==> nanos < NANOS_PER_SEC,
            span matches Some(s) ==> s.spec_secs() == secs && s.spec_nanos() == nanos,
    {
        if nanos < NANOS_PER_SEC {
            Some(TimeSpan { secs, nanos })
        } else {
            None
        }
    }

    /// Whole seconds of the span.
    pub fn as_secs(&self) -> (secs: u64)
        ensures
            secs == self.spec_secs(),
    {
        self.secs
    }

    /// Nanoseconds beyond the whole seconds, always below one second.
    pub fn subsec_nanos(&self) -> (nanos: u32)
        ensures
            nanos == self.spec_nanos(),
            nanos < NANOS_PER_SEC,
    {
        proof {
            use_type_invariant(self);
        }
        self.nanos
    }

    /// The time by which this span is longer than `earlier`; nothing where it
    /// is not longer.
    pub fn saturating_sub(&self, earlier: &TimeSpan) -> (rest: TimeSpan)
        ensures
            rest.total_nanos() == if self.total_nanos() >= earlier.total_nanos() {
                self.total_nanos() - earlier.total_nanos()
            } else {
                0
            },
    {
        proof {
            use_type_invariant(self);
            use_type_invariant(earlier);
        }
        if self.secs < earlier.secs || (self.secs == earlier.secs && self.nanos < earlier.nanos) {
            TimeSpan { secs: 0, nanos: 0 }
        } else if self.nanos >= earlier.nanos {
            TimeSpan { secs: self.secs - earlier.secs, nanos: self.nanos - earlier.nanos }
        } else {
            TimeSpan {
                secs: self.secs - earlier.secs - 1,
                nanos: self.nanos + (NANOS_PER_SEC - earlier.nanos),
            }
        }
    }

    /// Whether this span is strictly shorter than `other`.
    pub fn is_shorter_than(&self, other: &TimeSpan) -> (shorter: bool)
        ensures
            shorter == (self.total_nanos() < other.total_nanos()),
    {
        proof {
            use_type_invariant(self);
            use_type_invariant(other);
        }
        self.secs < other.secs || (self.secs == other.secs && self.nanos < other.nanos)
    }
}

} // verus!
