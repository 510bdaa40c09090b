use provenance::event::{CommandSpec, EventEnvelope, Observation, SessionStarted};
use provenance::identity::{EventId, EventSequence, SessionId};
use provenance::memory::InMemoryEventStore;
use provenance::native::NativePath;
use provenance::store::{check_append, EventStore, EventStoreError, ExpectedVersion};
use provenance::time::UnixNanos;

fn started_event(sequence: EventSequence) -> EventEnvelope {
    EventEnvelope::new(
        EventId::from_u128(2),
        SessionId::from_u128(1),
        sequence,
        UnixNanos::new(10),
        Observation::SessionStarted(SessionStarted::new(
            CommandSpec::new(
                NativePath::from_unix_bytes(b"echo".to_vec()),
                Vec::new(),
                NativePath::from_unix_bytes(b"/tmp".to_vec()),
            ),
            None,
        )),
    )
}

#[test]
fn memory_wrong_expected_version_is_rejected() {
    let mut store = InMemoryEventStore::default();
    store
        .append(ExpectedVersion::Empty, started_event(EventSequence::zero()))
        .expect("first event appends");

    let result = store.append(ExpectedVersion::Empty, started_event(EventSequence::new(1)));

    assert_eq!(
        Err(EventStoreError::Conflict {
            expected: ExpectedVersion::Empty,
            actual: Some(EventSequence::zero()),
        }),
        result
    );
}

#[test]
fn refused_append_leaves_the_stream_unchanged() {
    let mut store = InMemoryEventStore::new();
    store
        .append(ExpectedVersion::Empty, started_event(EventSequence::zero()))
        .expect("first event appends");
    let result = store.append(
        ExpectedVersion::Exact(EventSequence::zero()),
        started_event(EventSequence::new(5)),
    );
    assert_eq!(
        Err(EventStoreError::InvalidSequence {
            expected: EventSequence::new(1),
            actual: EventSequence::new(5),
        }),
        result
    );
    let loaded = store.load(SessionId::from_u128(1)).expect("load succeeds");
    assert_eq!(1, loaded.len());
    assert_eq!(EventSequence::zero(), loaded[0].sequence());
}

#[test]
fn appends_continue_the_stream_in_order() {
    let mut store = InMemoryEventStore::new();
    store
        .append(ExpectedVersion::Empty, started_event(EventSequence::zero()))
        .expect("first");
    store
        .append(ExpectedVersion::Exact(EventSequence::zero()), started_event(EventSequence::new(1)))
        .expect("second");
    let events = store.events(SessionId::from_u128(1));
    assert_eq!(2, events.len());
    assert_eq!(EventSequence::new(1), events[1].sequence());
    assert!(store.events(SessionId::from_u128(9)).is_empty());
}

#[test]
fn check_append_refuses_each_kind_of_misfit() {
    assert_eq!(Ok(()), check_append(ExpectedVersion::Empty, None, EventSequence::zero()));
    assert_eq!(
        Err(EventStoreError::Conflict { expected: ExpectedVersion::Empty, actual: Some(EventSequence::new(3)) }),
        check_append(ExpectedVersion::Empty, Some(EventSequence::new(3)), EventSequence::new(4))
    );
    assert_eq!(
        Err(EventStoreError::SequenceExhausted),
        check_append(
            ExpectedVersion::Exact(EventSequence::new(u64::MAX)),
            Some(EventSequence::new(u64::MAX)),
            EventSequence::new(0)
        )
    );
    assert_eq!(
        Err(EventStoreError::InvalidSequence { expected: EventSequence::zero(), actual: EventSequence::new(1) }),
        check_append(ExpectedVersion::Empty, None, EventSequence::new(1))
    );
}

#[test]
fn store_error_messages_name_the_failure() {
    assert_eq!(
        "event sequence is not contiguous: expected 1, actual 5",
        EventStoreError::InvalidSequence { expected: EventSequence::new(1), actual: EventSequence::new(5) }
            .message()
    );
    assert_eq!("event store corrupt: bad row", EventStoreError::Corrupt("bad row".to_owned()).message());
    assert_eq!(
        "event stream version conflict: expected Empty, actual Some(EventSequence(0))",
        EventStoreError::Conflict { expected: ExpectedVersion::Empty, actual: Some(EventSequence::zero()) }.message()
    );
}
