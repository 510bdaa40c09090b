//! The rows of a relational event table: how an accepted event becomes a row, how a row
//! becomes an event again, and which rows close a session that a crash left open.
//!
//! A row holds the session and event identifiers as 32-digit hexadecimal text, the
//! sequence, schema version and recording time as signed 64-bit integers, and the
//! observation as its record; the table itself is kept outside the library.

use vstd::prelude::*;
use crate::codec::{
    dto_to_observation, observation_dto, observation_of_dto, observation_to_dto, parse_hex_field, ObservationDto,
    ObservationDtoView,
};
use crate::event::{
    observation_wf, EnvelopeView, EventEnvelope, GapReason, GapScope, Observation, ObservationGapView,
    ObservationSource, ObservationView, RuntimeKindView, RuntimeObservation, RuntimeObservationKind,
    RuntimeObservationView, SessionEnded, SessionEndedView, SessionOutcome, EVENT_SCHEMA_VERSION,
    ObservationGap,
};
use crate::identity::{EventId, EventSequence, SessionId};
use crate::store::{append_refusal, check_append, opt_sequence_view, EventStoreError, ExpectedVersion};
use crate::text::{contains_text, hex32, hex32_string, parse_hex, push_decimal, push_signed_decimal, push_str, signed_decimal, string_of, text_contains};
use crate::time::{ObservationTime, ObservationTimeView, UnixNanos};

verus! {

/// One row of the event table.
pub struct EventRow {
    pub session_id: String,
    pub sequence: i64,
    pub event_id: String,
    pub schema_version: i64,
    pub recorded_at: i64,
    pub observation: ObservationDto,
}

pub struct EventRowView {
    pub session_id: Seq<char>,
    pub sequence: i64,
    pub event_id: Seq<char>,
    pub schema_version: i64,
    pub recorded_at: i64,
    pub observation: ObservationDtoView,
}

impl View for EventRow {
    type V = EventRowView;

    open spec fn view(&self) -> EventRowView {
        EventRowView {
            session_id: self.session_id@,
            sequence: self.sequence,
            event_id: self.event_id@,
            schema_version: self.schema_version,
            recorded_at: self.recorded_at,
            observation: self.observation@,
        }
    }
}

pub open spec fn row_views(s: Seq<EventRow>) -> Seq<EventRowView> {
    s.map_values(|r: EventRow| r@)
}

/// The row of an event.
pub open spec fn event_row(e: EnvelopeView) -> EventRowView {
    EventRowView {
        session_id: hex32(e.session_id),
        sequence: e.sequence as i64,
        event_id: hex32(e.event_id),
        schema_version: e.schema_version as i64,
        recorded_at: e.recorded_at,
        observation: observation_dto(e.observation),
    }
}

/// The key under which a session's rows are stored.
pub fn session_key(session_id: SessionId) -> (r: String)
    ensures
        r@ == hex32(session_id@),
{
    hex32_string(session_id.as_u128())
}

/// A failure described without its text's storage: a refusal of the event store, or a
/// corrupt or unavailable table with its message.
pub enum RowFailure {
    Refused(EventStoreError),
    Corrupt(Seq<char>),
    Unavailable(Seq<char>),
}

/// `err` is the failure `f`.
pub open spec fn is_failure(err: EventStoreError, f: RowFailure) -> bool {
    match f {
        RowFailure::Refused(e) => err == e,
        RowFailure::Corrupt(m) => err matches EventStoreError::Corrupt(t) && t@ == m,
        RowFailure::Unavailable(m) => err matches EventStoreError::Unavailable(t) && t@ == m,
    }
}

pub open spec fn negative_sequence_message(v: i64) -> Seq<char> {
    "negative sequence "@ + signed_decimal(v as int)
}

fn negative_sequence(v: i64) -> (r: EventStoreError)
    ensures
        is_failure(r, RowFailure::Corrupt(negative_sequence_message(v))),
{
    let mut s = string_of("negative sequence ");
    push_signed_decimal(&mut s, v as i128);
    EventStoreError::Corrupt(s)
}

/// The last stored sequence of a stream, from the largest sequence column of its rows;
/// a negative one means the table is corrupt.
pub fn stored_last_sequence(last: Option<i64>) -> (r: Result<Option<EventSequence>, EventStoreError>)
    ensures
        match last {
            None => r matches Ok(s) && s is None,
            Some(v) => if v < 0 {
                r matches Err(e) && is_failure(e, RowFailure::Corrupt(negative_sequence_message(v)))
            } else {
                r matches Ok(s) && opt_sequence_view(s) == Some(v as u64)
            },
        },
{
    match last {
        None => Ok(None),
        Some(v) => if v < 0 {
            Err(negative_sequence(v))
        } else {
            Ok(Some(EventSequence::new(v as u64)))
        },
    }
}

/// Why an append is refused given the largest stored sequence of the stream, or `None`.
pub open spec fn row_append_refusal(expected: ExpectedVersion, last: Option<i64>, e: EnvelopeView) -> Option<RowFailure> {
    match last {
        Some(v) => if v < 0 {
            Some(RowFailure::Corrupt(negative_sequence_message(v)))
        } else {
            row_append_refusal_after(expected, Some(v as u64), e)
        },
        None => row_append_refusal_after(expected, None, e),
    }
}

pub open spec fn row_append_refusal_after(expected: ExpectedVersion, actual: Option<u64>, e: EnvelopeView) -> Option<RowFailure> {
    match append_refusal(expected, actual, e.sequence) {
        Some(err) => Some(RowFailure::Refused(err)),
        None => if e.sequence > i64::MAX as u64 {
            Some(RowFailure::Corrupt("sequence does not fit in i64"@))
        } else {
            None
        },
    }
}

/// The row to insert for an event appended with expectation `expected` to a stream whose
/// largest stored sequence is `last`; refused exactly as the event store refuses.
///
/// Read back with `event_from_row`, the row gives the event again.
pub fn append_row(expected: ExpectedVersion, last: Option<i64>, event: &EventEnvelope) -> (r: Result<EventRow, EventStoreError>)
    ensures
        match row_append_refusal(expected, last, event@) {
            Some(f) => r matches Err(err) && is_failure(err, f),
            None => r matches Ok(row) && row@ == event_row(event@),
        },
        r matches Ok(row) ==> (observation_wf(event@.observation) && event@.schema_version == EVENT_SCHEMA_VERSION
            ==> row_event(
            event@.session_id,
            row@.sequence,
            row@.event_id,
            row@.schema_version,
            row@.recorded_at,
            Ok(row@.observation),
        ) == Some(event@)),
{
    let actual = stored_last_sequence(last)?;
    check_append(expected, actual, event.sequence())?;
    let sequence = event.sequence().value();
    if sequence > i64::MAX as u64 {
        return Err(EventStoreError::Corrupt(string_of("sequence does not fit in i64")));
    }
    let observation = observation_to_dto(event.observation());
    let row = EventRow {
        session_id: session_key(event.session_id()),
        sequence: sequence as i64,
        event_id: hex32_string(event.event_id().as_u128()),
        schema_version: event.schema_version() as i64,
        recorded_at: event.recorded_at().value(),
        observation,
    };
    proof {
        crate::text::lemma_parse_hex32(event@.event_id);
    }
    Ok(row)
}

/// The error for a failed insert: a clash of keys means the table is corrupt, anything
/// else that it is unavailable.
pub open spec fn insert_failure_of(message: Seq<char>) -> RowFailure {
    if contains_text(message, "UNIQUE"@) || contains_text(message, "PRIMARY"@) {
        RowFailure::Corrupt("duplicate sequence insert: "@ + message)
    } else {
        RowFailure::Unavailable(message)
    }
}

pub fn insert_failure(message: String) -> (r: EventStoreError)
    ensures
        is_failure(r, insert_failure_of(message@)),
{
    if text_contains(message.as_str(), "UNIQUE") || text_contains(message.as_str(), "PRIMARY") {
        let mut s = string_of("duplicate sequence insert: ");
        push_str(&mut s, message.as_str());
        EventStoreError::Corrupt(s)
    } else {
        EventStoreError::Unavailable(message)
    }
}

/// The event a row of session `session_id` holds, or `None` when the row is corrupt: a
/// negative sequence, an unreadable identifier, a schema version other than the current
/// one, or an observation that does not decode. `observation` is the parsed record, or
/// the parser's message.
pub open spec fn row_event(
    session_id: u128,
    sequence: i64,
    event_id: Seq<char>,
    schema_version: i64,
    recorded_at: i64,
    observation: Result<ObservationDtoView, Seq<char>>,
) -> Option<EnvelopeView> {
    if sequence < 0 {
        None
    } else {
        match parse_hex(event_id) {
            None => None,
            Some(id) => if schema_version != EVENT_SCHEMA_VERSION as i64 {
                None
            } else {
                match observation {
                    Err(_) => None,
                    Ok(d) => match observation_of_dto(d) {
                        None => None,
                        Some(o) => Some(
                            EnvelopeView {
                                schema_version: EVENT_SCHEMA_VERSION,
                                event_id: id,
                                session_id,
                                sequence: sequence as u64,
                                recorded_at,
                                observation: o,
                            },
                        ),
                    },
                }
            },
        }
    }
}

pub open spec fn parsed_view(observation: Result<ObservationDto, String>) -> Result<ObservationDtoView, Seq<char>> {
    match observation {
        Ok(d) => Ok(d@),
        Err(m) => Err(m@),
    }
}

/// The event a stored row holds; a row that holds none is reported as corrupt.
pub fn event_from_row(
    session_id: SessionId,
    sequence: i64,
    event_id: &str,
    schema_version: i64,
    recorded_at: i64,
    observation: Result<ObservationDto, String>,
) -> (r: Result<EventEnvelope, EventStoreError>)
    ensures
        match row_event(session_id@, sequence, event_id@, schema_version, recorded_at, parsed_view(observation)) {
            Some(e) => r matches Ok(env) && env@ == e,
            None => r matches Err(err) && err is Corrupt,
        },
{
    if sequence < 0 {
        return Err(negative_sequence(sequence));
    }
    let id = parse_hex_field(event_id, "EventId")?;
    if schema_version < 0 || schema_version > 65535 {
        let mut s = string_of("invalid schema_version ");
        push_signed_decimal(&mut s, schema_version as i128);
        return Err(EventStoreError::Corrupt(s));
    }
    if schema_version as u16 != EVENT_SCHEMA_VERSION {
        let mut s = string_of("unsupported schema_version ");
        push_decimal(&mut s, schema_version as u128);
        return Err(EventStoreError::Corrupt(s));
    }
    let dto = match observation {
        Ok(d) => d,
        Err(m) => return Err(EventStoreError::Corrupt(m)),
    };
    let obs = dto_to_observation(&dto)?;
    Ok(EventEnvelope::new(
        EventId::from_u128(id),
        session_id,
        EventSequence::new(sequence as u64),
        UnixNanos::new(recorded_at),
        obs,
    ))
}

// ---------------------------------------------------------------------------
// Closing sessions left open by a crash
// ---------------------------------------------------------------------------

/// A stored observation text marks the end of its session.
pub open spec fn marks_end(text: Seq<char>) -> bool {
    (contains_text(text, "\"type\":\"SessionEnded\""@) || contains_text(text, "\"SessionEnded\""@))
        && contains_text(text, "SessionEnded"@)
}

/// Some stored observation of the session marks its end.
pub open spec fn session_closed(texts: Seq<Seq<char>>) -> bool {
    exists|i: int| 0 <= i < texts.len() && #[trigger] marks_end(texts[i])
}

/// The last stored observation already reports the recorder's restart.
pub open spec fn restart_reported(texts: Seq<Seq<char>>) -> bool {
    texts.len() > 0 && contains_text(texts.last(), "RecorderRestarted"@)
}

/// The gap that reports a recorder restart, seen at `at`.
pub open spec fn restart_gap(at: i64) -> ObservationView {
    ObservationView::Runtime(
        RuntimeObservationView {
            source: ObservationSource::spec_recorder(),
            observed_at: ObservationTimeView { wall_clock: Some(at), monotonic: None },
            kind: RuntimeKindView::ObservationGap(
                ObservationGapView {
                    scope: GapScope::Recorder,
                    reason: GapReason::RecorderRestarted,
                    detail: "recorder restarted after crash"@,
                },
            ),
        },
    )
}

/// The end of a session that was cut off.
pub open spec fn aborted_end() -> ObservationView {
    ObservationView::SessionEnded(SessionEndedView { outcome: SessionOutcome::Aborted, final_workspace: None })
}

pub open spec fn plain_row(session_key: Seq<char>, sequence: i64, event_id: u128, recorded_at: i64, o: ObservationView) -> EventRowView {
    EventRowView {
        session_id: session_key,
        sequence,
        event_id: hex32(event_id),
        schema_version: EVENT_SCHEMA_VERSION as i64,
        recorded_at,
        observation: observation_dto(o),
    }
}

/// The rows that close a session left open: none when it is closed; otherwise a restart
/// gap (unless the last row already reports one) and an aborted end, numbered on from the
/// largest stored sequence.
pub open spec fn recovery_rows_of(
    session_key: Seq<char>,
    texts: Seq<Seq<char>>,
    max_sequence: i64,
    gap_event_id: u128,
    end_event_id: u128,
    recorded_at: i64,
) -> Seq<EventRowView> {
    if session_closed(texts) {
        Seq::empty()
    } else if !restart_reported(texts) {
        seq![
            plain_row(session_key, (max_sequence + 1) as i64, gap_event_id, recorded_at, restart_gap(recorded_at)),
            plain_row(session_key, (max_sequence + 2) as i64, end_event_id, (recorded_at + 1) as i64, aborted_end()),
        ]
    } else {
        seq![plain_row(session_key, (max_sequence + 1) as i64, end_event_id, recorded_at, aborted_end())]
    }
}

fn marks_end_exec(text: &str) -> (r: bool)
    ensures
        r == marks_end(text@),
{
    (text_contains(text, "\"type\":\"SessionEnded\"") || text_contains(text, "\"SessionEnded\"")) && text_contains(
        text,
        "SessionEnded",
    )
}

pub open spec fn text_views(s: Seq<String>) -> Seq<Seq<char>> {
    s.map_values(|t: String| t@)
}

/// The rows that close a session that a crash left open. `texts` are the stored
/// observation texts of the session in sequence order and `max_sequence` its largest
/// stored sequence (-1 when it has none); the identifiers and the time are those to give
/// the new rows.
pub fn recovery_rows(
    session_key: &str,
    texts: &[String],
    max_sequence: i64,
    gap_event_id: u128,
    end_event_id: u128,
    recorded_at: i64,
) -> (r: Vec<EventRow>)
    requires
        max_sequence < i64::MAX - 1,
        recorded_at < i64::MAX,
    ensures
        row_views(r@) == recovery_rows_of(session_key@, text_views(texts@), max_sequence, gap_event_id, end_event_id, recorded_at),
{
    let ghost tv = text_views(texts@);
    let mut i: usize = 0;
    while i < texts.len()
        invariant
            i <= texts@.len(),
            tv == text_views(texts@),
            forall|k: int| 0 <= k < i ==> !#[trigger] marks_end(tv[k]),
        decreases texts@.len() - i,
    {
        if marks_end_exec(texts[i].as_str()) {
            assert(marks_end(tv[i as int]));
            assert(session_closed(tv));
            let r: Vec<EventRow> = Vec::new();
            assert(row_views(r@) =~= Seq::<EventRowView>::empty());
            return r;
        }
        i = i + 1;
    }
    assert(!session_closed(tv));
    let restart = texts.len() > 0 && text_contains(texts[texts.len() - 1].as_str(), "RecorderRestarted");
    let mut rows: Vec<EventRow> = Vec::new();
    let end = Observation::SessionEnded(SessionEnded::new(SessionOutcome::Aborted, None));
    if !restart {
        let gap = Observation::Runtime(
            RuntimeObservation::new(
                ObservationSource::recorder(),
                ObservationTime::wall_clock(UnixNanos::new(recorded_at)),
                RuntimeObservationKind::ObservationGap(
                    ObservationGap {
                        scope: GapScope::Recorder,
                        reason: GapReason::RecorderRestarted,
                        detail: string_of("recorder restarted after crash"),
                    },
                ),
            ),
        );
        rows.push(
            EventRow {
                session_id: string_of(session_key),
                sequence: max_sequence + 1,
                event_id: hex32_string(gap_event_id),
                schema_version: EVENT_SCHEMA_VERSION as i64,
                recorded_at,
                observation: observation_to_dto(&gap),
            },
        );
        rows.push(
            EventRow {
                session_id: string_of(session_key),
                sequence: max_sequence + 2,
                event_id: hex32_string(end_event_id),
                schema_version: EVENT_SCHEMA_VERSION as i64,
                recorded_at: recorded_at + 1,
                observation: observation_to_dto(&end),
            },
        );
    } else {
        rows.push(
            EventRow {
                session_id: string_of(session_key),
                sequence: max_sequence + 1,
                event_id: hex32_string(end_event_id),
                schema_version: EVENT_SCHEMA_VERSION as i64,
                recorded_at,
                observation: observation_to_dto(&end),
            },
        );
    }
    assert(row_views(rows@) =~= recovery_rows_of(session_key@, tv, max_sequence, gap_event_id, end_event_id, recorded_at));
    rows
}

} // verus!
