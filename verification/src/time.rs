//! Wall-clock and monotonic timestamps.

use vstd::prelude::*;

verus! {

/// Nanoseconds since the Unix epoch (negative before it).
#[derive(Clone, Copy, Debug, Eq, Hash, Ord, PartialEq, PartialOrd, Structural)]
pub struct UnixNanos(i64);

/// Nanoseconds on a monotonic clock with an arbitrary origin.
#[derive(Clone, Copy, Debug, Eq, Hash, Ord, PartialEq, PartialOrd, Structural)]
pub struct MonotonicNanos(u64);

/// When an observation was made, as far as the capture source knows.
#[derive(Clone, Copy, Debug, Eq, PartialEq, Structural)]
pub struct ObservationTime {
    wall_clock: Option<UnixNanos>,
    monotonic: Option<MonotonicNanos>,
}

pub struct ObservationTimeView {
    pub wall_clock: Option<i64>,
    pub monotonic: Option<u64>,
}

impl View for UnixNanos {
    type V = i64;

    closed spec fn view(&self) -> i64 {
        self.0
    }
}

impl View for MonotonicNanos {
    type V = u64;

    closed spec fn view(&self) -> u64 {
        self.0
    }
}

pub open spec fn opt_unix_view(v: Option<UnixNanos>) -> Option<i64> {
    match v {
        Some(t) => Some(t@),
        None => None,
    }
}

pub open spec fn opt_mono_view(v: Option<MonotonicNanos>) -> Option<u64> {
    match v {
        Some(t) => Some(t@),
        None => None,
    }
}

impl View for ObservationTime {
    type V = ObservationTimeView;

    closed spec fn view(&self) -> ObservationTimeView {
        ObservationTimeView {
            wall_clock: opt_unix_view(self.wall_clock),
            monotonic: opt_mono_view(self.monotonic),
        }
    }
}

impl UnixNanos {
    pub fn new(value: i64) -> (r: Self)
        ensures
            r@ == value,
    {
        UnixNanos(value)
    }

    pub fn value(self) -> (r: i64)
        ensures
            r == self@,
    {
        self.0
    }
}

impl MonotonicNanos {
    pub fn new(value: u64) -> (r: Self)
        ensures
            r@ == value,
    {
        MonotonicNanos(value)
    }

    pub fn value(self) -> (r: u64)
        ensures
            r == self@,
    {
        self.0
    }
}

impl ObservationTime {
    pub open spec fn spec_unknown() -> ObservationTimeView {
        ObservationTimeView { wall_clock: None, monotonic: None }
    }

    pub fn unknown() -> (r: Self)
        ensures
            r@ == Self::spec_unknown(),
    {
        ObservationTime { wall_clock: None, monotonic: None }
    }

    pub fn wall_clock(wall_clock: UnixNanos) -> (r: Self)
        ensures
            r@ == (ObservationTimeView { wall_clock: Some(wall_clock@), monotonic: None }),
    {
        ObservationTime { wall_clock: Some(wall_clock), monotonic: None }
    }

    pub fn both(wall_clock: UnixNanos, monotonic: MonotonicNanos) -> (r: Self)
        ensures
            r@ == (ObservationTimeView { wall_clock: Some(wall_clock@), monotonic: Some(monotonic@) }),
    {
        ObservationTime { wall_clock: Some(wall_clock), monotonic: Some(monotonic) }
    }

    pub fn wall_clock_value(self) -> (r: Option<UnixNanos>)
        ensures
            opt_unix_view(r) == self@.wall_clock,
    {
        self.wall_clock
    }

    pub fn monotonic_value(self) -> (r: Option<MonotonicNanos>)
        ensures
            opt_mono_view(r) == self@.monotonic,
    {
        self.monotonic
    }
}

} // verus!
