use provenance::codec::{dto_to_native_path, ObservationDto};
use provenance::event::{
    CommandSpec, EventEnvelope, GapReason, GapScope, Observation, ObservationSource, ObservationSourceKind,
    ProcessStarted, RuntimeObservation, RuntimeObservationKind, SessionStarted,
};
use provenance::identity::{EventId, EventSequence, ProcessInstanceId, SessionId, SourceId};
use provenance::native::{NativePath, NativeString};
use provenance::state::WorkspaceState;
use provenance::time::{ObservationTime, UnixNanos};
use provenance::timeline::{format_human, parse_session_id, timeline_document, OUTPUT_SCHEMA_VERSION};

fn make_events() -> Vec<EventEnvelope> {
    let session = SessionId::from_u128(1);
    let cmd = CommandSpec::new(
        NativePath::from_unix_bytes(b"/usr/bin/printf".to_vec()),
        vec![NativeString::from_unix_bytes(b"hello".to_vec())],
        NativePath::from_unix_bytes(b"/workspace".to_vec()),
    );
    vec![
        EventEnvelope::new(
            EventId::from_u128(10),
            session,
            EventSequence::zero(),
            UnixNanos::new(100),
            Observation::SessionStarted(SessionStarted::new(cmd.clone(), None)),
        ),
        EventEnvelope::new(
            EventId::from_u128(11),
            session,
            EventSequence::new(1),
            UnixNanos::new(111),
            Observation::Runtime(RuntimeObservation::new(
                ObservationSource::new(SourceId::from_u128(7), ObservationSourceKind::Process),
                ObservationTime::wall_clock(UnixNanos::new(110)),
                RuntimeObservationKind::ProcessStarted(ProcessStarted {
                    process_id: ProcessInstanceId::from_u128(20),
                    parent_process_id: None,
                    operating_system_pid: Some(4242),
                    command: cmd,
                    workspace_state: Some(WorkspaceState::initial()),
                }),
            )),
        ),
        EventEnvelope::new(
            EventId::from_u128(12),
            session,
            EventSequence::new(2),
            UnixNanos::new(112),
            Observation::Runtime(RuntimeObservation::recorder_gap(
                GapScope::FileSystem,
                GapReason::Unsupported,
                "gap detail".to_owned(),
            )),
        ),
    ]
}

#[test]
fn human_preserves_sequence_kind_source_and_gap() {
    let session = SessionId::from_u128(1);
    let events = make_events();
    let human = format_human(session, &events);
    assert!(human.contains("0 SessionStarted"));
    assert!(human.contains("1 Runtime:ProcessStarted"));
    assert!(human.contains("source=Process:"));
    assert!(human.contains("2 Runtime:ObservationGap"));
    assert!(human.contains("scope=FileSystem"));
    assert!(human.contains("reason=Unsupported"));
    assert!(human.contains("gap detail"));
}

#[test]
fn parse_session_id_validates() {
    assert_eq!(SessionId::from_u128(1), parse_session_id("00000000000000000000000000000001").unwrap());
    assert!(parse_session_id("nothex").is_err());
    assert!(parse_session_id("0001").is_err());
}

#[test]
fn session_id_accepts_prefix_and_whitespace_and_explains_refusals() {
    assert_eq!(
        SessionId::from_u128(0xab),
        parse_session_id("  0x000000000000000000000000000000AB \n").unwrap()
    );
    assert_eq!(
        Err("session id must be 32 hex chars, got 6 chars".to_owned()),
        parse_session_id("nothex")
    );
    assert_eq!(
        Err("invalid session id hex: zz000000000000000000000000000000".to_owned()),
        parse_session_id("zz000000000000000000000000000000")
    );
}

#[test]
fn human_timeline_lines_are_exact() {
    let session = SessionId::from_u128(1);
    let events = make_events();
    let human = format_human(session, &events);
    let lines: Vec<&str> = human.lines().collect();
    assert_eq!(4, lines.len());
    assert_eq!("session 00000000000000000000000000000001 timeline (output_schema_version 1, events 3)", lines[0]);
    assert_eq!(
        "0 SessionStarted event_id=0000000000000000000000000000000a recorded_at=100 executable=/usr/bin/printf args=hello workdir=/workspace initial_workspace=\"None\"",
        lines[1]
    );
    assert_eq!(
        "1 Runtime:ProcessStarted event_id=0000000000000000000000000000000b recorded_at=111 source=Process:00000000000000000000000000000007 observed_at=wall_clock=110 pid=00000000000000000000000000000014 parent=None os_pid=Some(4242) executable=/usr/bin/printf ",
        lines[2]
    );
    assert_eq!(
        "2 Runtime:ObservationGap event_id=0000000000000000000000000000000c recorded_at=112 source=Recorder:00000000000000000000000000000000 observed_at=unknown scope=FileSystem reason=Unsupported detail=gap detail",
        lines[3]
    );
}

#[test]
fn json_document_has_output_schema_version_and_lossless_native() {
    let session = SessionId::from_u128(1);
    let mut events = make_events();
    events.push(EventEnvelope::new(
        EventId::from_u128(13),
        session,
        EventSequence::new(3),
        UnixNanos::new(120),
        Observation::SessionStarted(SessionStarted::new(
            CommandSpec::new(
                NativePath::from_unix_bytes(vec![0x66, 0x80, 0x6f]),
                vec![NativeString::from_unix_bytes(vec![0xff, 0xfe])],
                NativePath::from_unix_bytes(vec![0x00, 0xff]),
            ),
            None,
        )),
    ));
    let doc = timeline_document(session, &events);
    assert_eq!(OUTPUT_SCHEMA_VERSION, doc.output_schema_version);
    assert_eq!("00000000000000000000000000000001", doc.session_id);
    assert_eq!(4, doc.events.len());
    assert_eq!("0000000000000000000000000000000d", doc.events[3].event_id);
    let ObservationDto::SessionStarted(started) = &doc.events[3].observation else {
        panic!("session start expected");
    };
    assert_eq!("UnixBytes", started.command.executable.encoding);
    assert_eq!("ZoBv", started.command.executable.bytes_base64);
    let decoded = dto_to_native_path(&started.command.executable).unwrap();
    assert_eq!(&[0x66, 0x80, 0x6f], decoded.units());
}

#[test]
fn session_ids_may_be_surrounded_by_unicode_whitespace() {
    assert_eq!(
        SessionId::from_u128(0x2a),
        parse_session_id("\u{3000}\t0000000000000000000000000000002a\u{a0}\n").unwrap()
    );
    assert_eq!(
        Err("session id must be 32 hex chars, got 0 chars".to_owned()),
        parse_session_id(" \u{2028} ")
    );
}

#[test]
fn session_ids_are_hex_digits_only() {
    let signed = "+0000000000000000000000000000001";
    assert_eq!(32, signed.len());
    assert_eq!(Err(format!("invalid session id hex: {signed}")), parse_session_id(signed));
}
