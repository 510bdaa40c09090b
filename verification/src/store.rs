//! The event store seam: optimistic, append-only streams of envelopes, one per session.

use vstd::prelude::*;
use crate::event::{EnvelopeView, EventEnvelope};
use crate::identity::{EventSequence, SessionId};
use crate::text::{decimal, push_decimal, push_str, string_of};

verus! {

broadcast use {EventSequence::lemma_spec_new, EventSequence::lemma_spec_new_of_view};

/// What the appender believes the end of the stream to be.
#[derive(Clone, Copy, Debug, Eq, PartialEq, Structural)]
pub enum ExpectedVersion {
    Empty,
    Exact(EventSequence),
}

#[derive(Clone, Debug, Eq, PartialEq)]
pub enum EventStoreError {
    Conflict { expected: ExpectedVersion, actual: Option<EventSequence> },
    InvalidSequence { expected: EventSequence, actual: EventSequence },
    SequenceExhausted,
    Unavailable(String),
    Corrupt(String),
}

pub open spec fn envelope_views(s: Seq<EventEnvelope>) -> Seq<EnvelopeView> {
    s.map_values(|e: EventEnvelope| e@)
}

/// The sequence number of the last event of a stream, if any.
pub open spec fn last_sequence(stream: Seq<EnvelopeView>) -> Option<u64> {
    if stream.len() == 0 {
        None
    } else {
        Some(stream.last().sequence)
    }
}

pub open spec fn opt_sequence_view(s: Option<EventSequence>) -> Option<u64> {
    match s {
        Some(s) => Some(s@),
        None => None,
    }
}

pub open spec fn opt_sequence_of(s: Option<u64>) -> Option<EventSequence> {
    match s {
        Some(v) => Some(EventSequence::spec_new(v)),
        None => None,
    }
}

/// Whether the appender's expectation matches the actual end of the stream.
pub open spec fn version_matches(expected: ExpectedVersion, actual: Option<u64>) -> bool {
    match expected {
        ExpectedVersion::Empty => actual is None,
        ExpectedVersion::Exact(e) => actual == Some(e@),
    }
}

/// Why an append of an event with sequence `event_sequence` must be refused, given the
/// actual last sequence of its stream; `None` when it must be accepted.
pub open spec fn append_refusal(expected: ExpectedVersion, actual: Option<u64>, event_sequence: u64) -> Option<
    EventStoreError,
> {
    if !version_matches(expected, actual) {
        Some(EventStoreError::Conflict { expected, actual: opt_sequence_of(actual) })
    } else {
        match actual {
            Some(a) => if a == u64::MAX {
                Some(EventStoreError::SequenceExhausted)
            } else if event_sequence != a + 1 {
                Some(EventStoreError::InvalidSequence {
                    expected: EventSequence::spec_new((a + 1) as u64),
                    actual: EventSequence::spec_new(event_sequence),
                })
            } else {
                None
            },
            None => if event_sequence != 0 {
                Some(EventStoreError::InvalidSequence {
                    expected: EventSequence::spec_new(0),
                    actual: EventSequence::spec_new(event_sequence),
                })
            } else {
                None
            },
        }
    }
}

/// A stream is contiguous when its events belong to `session` and are numbered 0, 1, 2, ...
pub open spec fn stream_contiguous(stream: Seq<EnvelopeView>, session: u128) -> bool {
    forall|i: int|
        0 <= i < stream.len() ==> (#[trigger] stream[i]).sequence == i && stream[i].session_id == session
}

/// Appending only what `append_refusal` admits keeps a stream contiguous.
pub proof fn lemma_admitted_append_keeps_contiguous(
    stream: Seq<EnvelopeView>,
    expected: ExpectedVersion,
    event: EnvelopeView,
)
    requires
        stream_contiguous(stream, event.session_id),
        append_refusal(expected, last_sequence(stream), event.sequence) is None,
    ensures
        stream_contiguous(stream.push(event), event.session_id),
        event.sequence == stream.len(),
{
    if stream.len() > 0 {
        assert(stream[stream.len() - 1].sequence == stream.len() - 1);
    }
}

/// The outcome of checking an append against the actual end of its stream.
pub fn check_append(expected: ExpectedVersion, actual: Option<EventSequence>, event_sequence: EventSequence) -> (r:
    Result<(), EventStoreError>)
    ensures
        match append_refusal(expected, opt_sequence_view(actual), event_sequence@) {
            Some(e) => r == Err::<(), EventStoreError>(e),
            None => r is Ok,
        },
{
    let version_ok = match expected {
        ExpectedVersion::Empty => actual.is_none(),
        ExpectedVersion::Exact(e) => match actual {
            Some(a) => a.value() == e.value(),
            None => false,
        },
    };
    if !version_ok {
        return Err(EventStoreError::Conflict { expected, actual });
    }
    let next = match actual {
        Some(a) => match a.checked_next() {
            Some(n) => n,
            None => return Err(EventStoreError::SequenceExhausted),
        },
        None => EventSequence::zero(),
    };
    if event_sequence.value() != next.value() {
        return Err(EventStoreError::InvalidSequence { expected: next, actual: event_sequence });
    }
    Ok(())
}

/// Storage for session event streams.
///
/// Implementations keep, per session, the ordered stream of accepted envelopes, accept an
/// append only when the caller's expectation and the event's sequence fit the end of the
/// stream, and leave a stream untouched when an append fails.
pub trait EventStore {
    /// The envelopes accepted so far for the session with identifier `session`, in order.
    ///
    /// A store kept outside the library, whose streams the library cannot describe, leaves
    /// this unspecified; the library's own stores define it.
    closed spec fn stream(&self, session: u128) -> Seq<EnvelopeView> {
        arbitrary()
    }

    fn append(&mut self, expected: ExpectedVersion, event: EventEnvelope) -> (r: Result<(), EventStoreError>)
        ensures
            ({
                let sid = event@.session_id;
                let refusal = append_refusal(expected, last_sequence(old(self).stream(sid)), event@.sequence);
                &&& r is Ok ==> refusal is None && final(self).stream(sid) == old(self).stream(sid).push(event@)
                &&& r is Err ==> final(self).stream(sid) == old(self).stream(sid)
                &&& refusal is Some ==> r is Err
                &&& r matches Err(e) ==> (refusal == Some(e) || e is Unavailable || e is Corrupt)
            }),
            forall|s: u128| s != event@.session_id ==> #[trigger] final(self).stream(s) == old(self).stream(s),
    ;

    fn load(&self, session_id: SessionId) -> (r: Result<Vec<EventEnvelope>, EventStoreError>)
        ensures
            r matches Ok(v) ==> envelope_views(v@) == self.stream(session_id@),
            r matches Err(e) ==> (e is Unavailable || e is Corrupt),
    ;
}

impl ExpectedVersion {
    pub open spec fn spec_debug(&self) -> Seq<char> {
        match self {
            ExpectedVersion::Empty => "Empty"@,
            ExpectedVersion::Exact(s) => "Exact(EventSequence("@ + decimal(s@ as nat) + "))"@,
        }
    }

    /// The `Debug` rendering of the value.
    pub fn debug_text(&self) -> (r: String)
        ensures
            r@ == self.spec_debug(),
    {
        match self {
            ExpectedVersion::Empty => string_of("Empty"),
            ExpectedVersion::Exact(s) => {
                let mut out = string_of("Exact(EventSequence(");
                push_decimal(&mut out, s.value() as u128);
                push_str(&mut out, "))");
                out
            },
        }
    }
}

pub open spec fn opt_sequence_debug(s: Option<EventSequence>) -> Seq<char> {
    match s {
        Some(s) => "Some(EventSequence("@ + decimal(s@ as nat) + "))"@,
        None => "None"@,
    }
}

impl EventStoreError {
    pub open spec fn spec_message(&self) -> Seq<char> {
        match self {
            EventStoreError::Conflict { expected, actual } => "event stream version conflict: expected "@
                + expected.spec_debug() + ", actual "@ + opt_sequence_debug(*actual),
            EventStoreError::InvalidSequence { expected, actual } =>
                "event sequence is not contiguous: expected "@ + decimal(expected@ as nat) + ", actual "@
                    + decimal(actual@ as nat),
            EventStoreError::SequenceExhausted => "event sequence is exhausted"@,
            EventStoreError::Unavailable(detail) => "event store unavailable: "@ + detail@,
            EventStoreError::Corrupt(detail) => "event store corrupt: "@ + detail@,
        }
    }

    /// The human-readable description of the error.
    pub fn message(&self) -> (r: String)
        ensures
            r@ == self.spec_message(),
    {
        match self {
            EventStoreError::Conflict { expected, actual } => {
                let mut s = string_of("event stream version conflict: expected ");
                let e = expected.debug_text();
                push_str(&mut s, e.as_str());
                push_str(&mut s, ", actual ");
                match actual {
                    Some(a) => {
                        push_str(&mut s, "Some(EventSequence(");
                        push_decimal(&mut s, a.value() as u128);
                        push_str(&mut s, "))");
                    },
                    None => push_str(&mut s, "None"),
                }
                assert(s@ =~= self.spec_message());
                s
            },
            EventStoreError::InvalidSequence { expected, actual } => {
                let mut s = string_of("event sequence is not contiguous: expected ");
                push_decimal(&mut s, expected.value() as u128);
                push_str(&mut s, ", actual ");
                push_decimal(&mut s, actual.value() as u128);
                s
            },
            EventStoreError::SequenceExhausted => string_of("event sequence is exhausted"),
            EventStoreError::Unavailable(detail) => {
                let mut s = string_of("event store unavailable: ");
                push_str(&mut s, detail.as_str());
                s
            },
            EventStoreError::Corrupt(detail) => {
                let mut s = string_of("event store corrupt: ");
                push_str(&mut s, detail.as_str());
                s
            },
        }
    }

    /// An exact copy.
    pub fn duplicate(&self) -> (r: Self)
        ensures
            r == *self,
    {
        match self {
            EventStoreError::Conflict { expected, actual } => EventStoreError::Conflict {
                expected: *expected,
                actual: *actual,
            },
            EventStoreError::InvalidSequence { expected, actual } => EventStoreError::InvalidSequence {
                expected: *expected,
                actual: *actual,
            },
            EventStoreError::SequenceExhausted => EventStoreError::SequenceExhausted,
            EventStoreError::Unavailable(d) => EventStoreError::Unavailable(d.clone()),
            EventStoreError::Corrupt(d) => EventStoreError::Corrupt(d.clone()),
        }
    }
}

} // verus!
