use provenance::codec::{observation_to_dto, ObservationDto};
use provenance::event::{CommandSpec, EventEnvelope, Observation, SessionStarted};
use provenance::identity::{EventId, EventSequence, SessionId};
use provenance::native::NativePath;
use provenance::rows::{append_row, event_from_row, insert_failure, recovery_rows, session_key, stored_last_sequence};
use provenance::store::{EventStoreError, ExpectedVersion};
use provenance::time::UnixNanos;

fn started(sequence: u64) -> EventEnvelope {
    EventEnvelope::new(
        EventId::from_u128(0xabc),
        SessionId::from_u128(7),
        EventSequence::new(sequence),
        UnixNanos::new(-3),
        Observation::SessionStarted(SessionStarted::new(
            CommandSpec::new(NativePath::from_unix_bytes(vec![0xff]), vec![], NativePath::from_unix_bytes(b"/".to_vec())),
            None,
        )),
    )
}

#[test]
fn an_appended_row_reads_back_as_the_event() {
    let event = started(0);
    let row = append_row(ExpectedVersion::Empty, None, &event).expect("row");
    assert_eq!("00000000000000000000000000000007", row.session_id);
    assert_eq!(session_key(SessionId::from_u128(7)), row.session_id);
    assert_eq!(0, row.sequence);
    assert_eq!(1, row.schema_version);
    let back = event_from_row(SessionId::from_u128(7), row.sequence, &row.event_id, row.schema_version, row.recorded_at, Ok(row.observation.clone()))
        .expect("reads back");
    assert_eq!(event, back);
}

#[test]
fn append_rows_are_refused_like_the_store_refuses() {
    assert_eq!(
        Err(EventStoreError::Conflict { expected: ExpectedVersion::Empty, actual: Some(EventSequence::new(0)) }),
        append_row(ExpectedVersion::Empty, Some(0), &started(1)).map(|_| ())
    );
    assert_eq!(
        Err(EventStoreError::Corrupt("negative sequence -4".to_owned())),
        append_row(ExpectedVersion::Empty, Some(-4), &started(0)).map(|_| ())
    );
    assert_eq!(
        Err(EventStoreError::Corrupt("negative sequence -1".to_owned())),
        stored_last_sequence(Some(-1))
    );
    assert_eq!(Ok(Some(EventSequence::new(3))), stored_last_sequence(Some(3)));
}

#[test]
fn corrupt_rows_are_reported() {
    let dto = observation_to_dto(started(0).observation());
    assert_eq!(
        Err(EventStoreError::Corrupt("unsupported schema_version 2".to_owned())),
        event_from_row(SessionId::from_u128(7), 0, "00000000000000000000000000000abc", 2, 0, Ok(dto.clone()))
    );
    assert_eq!(
        Err(EventStoreError::Corrupt("invalid EventId: xyz".to_owned())),
        event_from_row(SessionId::from_u128(7), 0, "xyz", 1, 0, Ok(dto.clone()))
    );
    assert_eq!(
        Err(EventStoreError::Corrupt("expected value".to_owned())),
        event_from_row(SessionId::from_u128(7), 0, "00000000000000000000000000000abc", 1, 0, Err("expected value".to_owned()))
    );
}

#[test]
fn insert_failures_are_classified() {
    assert_eq!(
        EventStoreError::Corrupt("duplicate sequence insert: UNIQUE constraint failed".to_owned()),
        insert_failure("UNIQUE constraint failed".to_owned())
    );
    assert_eq!(EventStoreError::Unavailable("disk full".to_owned()), insert_failure("disk full".to_owned()));
}

#[test]
fn recovery_closes_open_sessions_once() {
    let open = vec![r#"{"type":"SessionStarted","payload":{}}"#.to_owned()];
    let rows = recovery_rows("k", &open, 0, 1, 2, 100);
    assert_eq!(2, rows.len());
    assert_eq!(1, rows[0].sequence);
    assert_eq!(2, rows[1].sequence);
    assert_eq!(101, rows[1].recorded_at);
    let ObservationDto::Runtime(gap) = &rows[0].observation else { panic!("gap first") };
    assert_eq!(Some(100), gap.observed_at.wall_clock);
    let ObservationDto::SessionEnded(end) = &rows[1].observation else { panic!("end second") };
    assert_eq!("Aborted", end.outcome);

    let with_gap = vec![open[0].clone(), r#"{"reason":"RecorderRestarted"}"#.to_owned()];
    let rows = recovery_rows("k", &with_gap, 1, 1, 2, 100);
    assert_eq!(1, rows.len());
    assert_eq!(2, rows[0].sequence);

    let closed = vec![open[0].clone(), r#"{"type":"SessionEnded","payload":{}}"#.to_owned()];
    assert!(recovery_rows("k", &closed, 1, 1, 2, 100).is_empty());
}
