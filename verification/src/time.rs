//! Spans of time as plain numbers: whole seconds and the nanoseconds beyond
//! them, as the standard library's duration holds them.

use vstd::prelude::*;

verus! {

/// The nanoseconds in one second.
pub const NANOS_PER_SEC: u32 = 1_000_000_000;

/// A span of time. The nanoseconds are always less than one second.
#[derive(Clone, Copy, PartialEq, Eq, Structural, Debug)]
pub struct TimeSpan {
    secs: u64,
    nanos: u32,
}

impl TimeSpan {
    #[verifier::type_invariant]
    spec fn well_formed(&self) -> bool {
        self.nanos < NANOS_PER_SEC
    }

    /// The whole seconds of the span.
    pub closed spec fn whole_secs(&self) -> nat {
        self.secs as nat
    }

    /// The nanoseconds of the span beyond its whole seconds.
    pub closed spec fn beyond_secs(&self) -> nat {
        self.nanos as nat
    }

    /// The whole span in nanoseconds.
    pub open spec fn as_nanos(&self) -> nat {
        self.whole_secs() * 1_000_000_000 + self.beyond_secs()
    }

    /// The span of `secs` seconds and `nanos` nanoseconds, where `nanos` is
    /// less than one second; otherwise nothing.
    pub fn new(secs: u64, nanos: u32) -> (span: Option<TimeSpan>)
        ensures
            span is Some == (nanos < NANOS_PER_SEC),
            span matches Some(s) ==> s.whole_secs() == secs && s.beyond_secs() == nanos,
    {
        if nanos < NANOS_PER_SEC {
            Some(TimeSpan { secs, nanos })
        } else {
            None
        }
    }

    /// The span of `secs` whole seconds.
    pub fn from_secs(secs: u64) -> (span: TimeSpan)
        ensures
            span.whole_secs() == secs,
            span.beyond_secs() == 0,
    {
        TimeSpan { secs, nanos: 0 }
    }

    /// The span of `millis` milliseconds.
    pub fn from_millis(millis: u64) -> (span: TimeSpan)
        ensures
            span.whole_secs() == millis / 1000,
            span.beyond_secs() == (millis % 1000) * 1_000_000,
            span.as_nanos() == millis * 1_000_000,
    {
        let rest: u32 = (millis % 1000) as u32;
        TimeSpan { secs: millis / 1000, nanos: rest * 1_000_000 }
    }

    pub fn secs(&self) -> (secs: u64)
        ensures
            secs == self.whole_secs(),
    {
        self.secs
    }

    pub fn subsec_nanos(&self) -> (nanos: u32)
        ensures
            nanos == self.beyond_secs(),
            nanos < NANOS_PER_SEC,
    {
        proof {
            use_type_invariant(self);
        }
        self.nanos
    }

    /// Whether this span is at least as long as `other`.
    pub fn at_least(&self, other: &TimeSpan) -> (yes: bool)
        ensures
            yes == (self.as_nanos() >= other.as_nanos()),
    {
        proof {
            use_type_invariant(self);
            use_type_invariant(other);
            let a: int = self.secs as int;
            let b: int = other.secs as int;
            assert(a > b ==> a * 1_000_000_000 >= b * 1_000_000_000 + 1_000_000_000)
                by (nonlinear_arith);
            assert(a < b ==> b * 1_000_000_000 >= a * 1_000_000_000 + 1_000_000_000)
                by (nonlinear_arith);
        }
        self.secs > other.secs || (self.secs == other.secs && self.nanos >= other.nanos)
    }
}

} // verus!
