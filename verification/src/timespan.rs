//! Lengths of time, to the nanosecond.

use vstd::prelude::*;

verus! {

/// Nanoseconds in a second.
pub const NANOS_PER_SEC: u32 = 1_000_000_000;

/// A non-negative length of time: whole seconds and the nanoseconds beyond them.
///
/// Its view is the length in nanoseconds.
#[derive(Clone, Copy, Debug, PartialEq, Eq)]
pub struct TimeSpan {
    secs: u64,
    nanos: u32,
}

impl View for TimeSpan {
    type V = nat;

    closed spec fn view(&self) -> nat {
        self.secs as nat * 1_000_000_000 + self.nanos as nat
    }
}

impl TimeSpan {
    #[verifier::type_invariant]
    spec fn subsecond_part_in_range(self) -> bool {
        self.nanos < 1_000_000_000
    }

    /// The span of `secs` seconds and `nanos` nanoseconds, where `nanos` is
    /// less than a second.
    pub fn new(secs: u64, nanos: u32) -> (span: Option<TimeSpan>)
        ensures
            span is Some <==> nanos < NANOS_PER_SEC,
            span matches Some(s) ==> s@ == secs as nat * 1_000_000_000 + nanos as nat,
    {
        if nanos < NANOS_PER_SEC {
            Some(TimeSpan { secs, nanos })
        } else {
            None
        }
    }

    /// The span of `secs` whole seconds.
    pub fn from_secs(secs: u64) -> (span: TimeSpan)
        ensures
            span@ == secs as nat * 1_000_000_000,
    {
        TimeSpan { secs, nanos: 0 }
    }

    /// The whole seconds in the span.
    pub fn as_secs(&self) -> (secs: u64)
        ensures
            secs as nat == self@ / 1_000_000_000,
    {
        proof {
            use_type_invariant(self);
        }
        self.secs
    }

    /// The nanoseconds beyond the whole seconds.
    pub fn subsec_nanos(&self) -> (nanos: u32)
        ensures
            nanos as nat == self@ % 1_000_000_000,
    {
        proof {
            use_type_invariant(self);
        }
        self.nanos
    }

    /// The span in nanoseconds, which is below 2^94.
    pub fn as_nanos(&self) -> (nanos: u128)
        ensures
            nanos as nat == self@,
            nanos < 0x4000_0000_0000_0000_0000_0000,
    {
        proof {
            use_type_invariant(self);
        }
        let secs: u128 = self.secs as u128;
        let nanos: u128 = self.nanos as u128;
        secs * 1_000_000_000 + nanos
    }

    /// Whether this span is longer than `other`.
    pub fn exceeds(&self, other: &TimeSpan) -> (longer: bool)
        ensures
            longer == (self@ > other@),
    {
        self.as_nanos() > other.as_nanos()
    }
}

} // verus!
