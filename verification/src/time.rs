//! The clock resource: the length of the last tick.

use std::time::Duration;
use vstd::prelude::*;

verus! {

/// The whole seconds that a `Duration` holds.
pub uninterp spec fn duration_secs(d: Duration) -> u64;

/// The part of a `Duration` below one second, in nanoseconds.
pub uninterp spec fn duration_subsec_nanos(d: Duration) -> u32;

/// `Duration::as_secs` returns the number of whole seconds in the duration.
pub assume_specification[ Duration::as_secs ](d: &Duration) -> (secs: u64)
    ensures
        secs == duration_secs(*d),
;

/// `Duration::subsec_nanos` returns the fractional part in nanoseconds, which
/// is always below one second.
pub assume_specification[ Duration::subsec_nanos ](d: &Duration) -> (nanos: u32)
    ensures
        nanos == duration_subsec_nanos(*d),
        nanos < 1_000_000_000,
;

/// Wall-clock time between the two most recent ticks, as whole seconds and the
/// nanoseconds below a second.
#[derive(Clone, Copy, Debug, PartialEq, Eq, Structural)]
pub struct Time {
    secs: u64,
    nanos: u32,
}

impl Time {
    #[verifier::type_invariant]
    spec fn below_one_second(self) -> bool {
        self.nanos < 1_000_000_000
    }

    /// A clock that has not ticked: its delta is zero.
    pub fn new() -> (t: Time)
        ensures
            t.is_zero(),
    {
        Time { secs: 0, nanos: 0 }
    }

    /// Replaces the stored delta by `delta`.
    pub fn advance_by(&mut self, delta: Duration)
        ensures
            final(self).holds(delta),
    {
        *self = Time { secs: delta.as_secs(), nanos: delta.subsec_nanos() };
    }

    /// The whole seconds of the last delta.
    pub fn delta_secs(&self) -> (secs: u64)
        ensures
            secs == self.secs(),
    {
        self.secs
    }

    /// The nanoseconds of the last delta below a second.
    pub fn delta_subsec_nanos(&self) -> (nanos: u32)
        ensures
            nanos == self.subsec_nanos(),
            nanos < 1_000_000_000,
    {
        proof {
            use_type_invariant(self);
        }
        self.nanos
    }

    /// The whole seconds of the last delta, in contracts.
    pub closed spec fn secs(&self) -> u64 {
        self.secs
    }

    /// The nanoseconds of the last delta below a second, in contracts.
    pub closed spec fn subsec_nanos(&self) -> u32 {
        self.nanos
    }

    /// Whether the last delta is `delta`.
    pub open spec fn holds(&self, delta: Duration) -> bool {
        self.secs() == duration_secs(delta) && self.subsec_nanos() == duration_subsec_nanos(delta)
    }

    /// Whether the last delta is zero.
    pub open spec fn is_zero(&self) -> bool {
        self.secs() == 0 && self.subsec_nanos() == 0
    }
}

impl Default for Time {
    fn default() -> (t: Time)
        ensures
            t.is_zero(),
    {
        Time::new()
    }
}

} // verus!
