//! Opaque identifiers and the per-session event sequence number.

use vstd::prelude::*;

verus! {

/// Identifier of one recording session.
#[derive(Clone, Copy, Debug, PartialEq, Eq, Hash, PartialOrd, Ord, Structural)]
pub struct SessionId(u128);

/// Identifier of one recorded event.
#[derive(Clone, Copy, Debug, PartialEq, Eq, Hash, PartialOrd, Ord, Structural)]
pub struct EventId(u128);

/// Identifier of a capture source.
#[derive(Clone, Copy, Debug, PartialEq, Eq, Hash, PartialOrd, Ord, Structural)]
pub struct SourceId(u128);

/// Identifier of one process execution lifetime, independent of operating-system pids.
#[derive(Clone, Copy, Debug, PartialEq, Eq, Hash, PartialOrd, Ord, Structural)]
pub struct ProcessInstanceId(u128);

/// Position of an event in its session's stream; the first event has sequence zero.
#[derive(Clone, Copy, Debug, PartialEq, Eq, Hash, PartialOrd, Ord, Structural)]
pub struct EventSequence(u64);

impl View for SessionId {
    type V = u128;

    closed spec fn view(&self) -> u128 {
        self.0
    }
}

impl View for EventId {
    type V = u128;

    closed spec fn view(&self) -> u128 {
        self.0
    }
}

impl View for SourceId {
    type V = u128;

    closed spec fn view(&self) -> u128 {
        self.0
    }
}

impl View for ProcessInstanceId {
    type V = u128;

    closed spec fn view(&self) -> u128 {
        self.0
    }
}

impl View for EventSequence {
    type V = u64;

    closed spec fn view(&self) -> u64 {
        self.0
    }
}

impl SessionId {
    pub fn from_u128(value: u128) -> (r: Self)
        ensures
            r@ == value,
    {
        SessionId(value)
    }

    pub fn as_u128(&self) -> (r: u128)
        ensures
            r == self@,
    {
        self.0
    }

    /// Two identifiers are the same value exactly when their numbers agree.
    pub proof fn lemma_view_injective(a: Self, b: Self)
        ensures
            a@ == b@ ==> a == b,
    {
    }
}

impl EventId {
    pub fn from_u128(value: u128) -> (r: Self)
        ensures
            r@ == value,
    {
        EventId(value)
    }

    pub fn as_u128(&self) -> (r: u128)
        ensures
            r == self@,
    {
        self.0
    }
}

impl SourceId {
    pub fn from_u128(value: u128) -> (r: Self)
        ensures
            r@ == value,
    {
        SourceId(value)
    }

    pub fn as_u128(&self) -> (r: u128)
        ensures
            r == self@,
    {
        self.0
    }
}

impl ProcessInstanceId {
    pub fn from_u128(value: u128) -> (r: Self)
        ensures
            r@ == value,
    {
        ProcessInstanceId(value)
    }

    pub fn as_u128(&self) -> (r: u128)
        ensures
            r == self@,
    {
        self.0
    }
}

impl EventSequence {
    pub fn new(value: u64) -> (r: Self)
        ensures
            r@ == value,
    {
        EventSequence(value)
    }

    pub fn zero() -> (r: Self)
        ensures
            r@ == 0,
    {
        EventSequence(0)
    }

    pub fn value(&self) -> (r: u64)
        ensures
            r == self@,
    {
        self.0
    }

    /// The following sequence number, or `None` when the counter is exhausted.
    pub fn checked_next(&self) -> (r: Option<Self>)
        ensures
            self@ < u64::MAX ==> r == Some(EventSequence::spec_new((self@ + 1) as u64)),
            self@ == u64::MAX ==> r is None,
            r matches Some(n) ==> n@ == self@ + 1,
    {
        if self.0 < u64::MAX {
            Some(EventSequence(self.0 + 1))
        } else {
            None
        }
    }

    pub closed spec fn spec_new(value: u64) -> Self {
        EventSequence(value)
    }

    pub broadcast proof fn lemma_spec_new_of_view(s: Self)
        ensures
            #[trigger] EventSequence::spec_new(s@) == s,
    {
    }

    pub broadcast proof fn lemma_spec_new(value: u64)
        ensures
            #[trigger] EventSequence::spec_new(value)@ == value,
    {
    }

    pub proof fn lemma_view_injective(a: Self, b: Self)
        ensures
            a@ == b@ ==> a == b,
    {
    }
}

} // verus!
