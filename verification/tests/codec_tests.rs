use provenance::codec::{
    dto_to_native_string, dto_to_observation, native_string_to_dto, observation_to_dto, str_to_gap_reason,
    NativeStringDto, ObservationDto,
};
use provenance::event::{
    CommandSpec, FileMutationKind, FileMutationObserved, GapReason, Observation, ObservationSource,
    ObservationSourceKind, ProcessExited, ProcessTermination, RuntimeObservation, RuntimeObservationKind,
    SessionEnded, SessionOutcome, SessionStarted, WorkspaceStateAdvanced,
};
use provenance::identity::{EventId, ProcessInstanceId, SourceId};
use provenance::native::{NativePath, NativeString};
use provenance::state::{ContentDigest, WorkspaceGeneration, WorkspaceState, WorkspaceTransition};
use provenance::store::EventStoreError;
use provenance::time::{MonotonicNanos, ObservationTime, UnixNanos};

fn round_trip(observation: Observation) {
    let dto = observation_to_dto(&observation);
    let back = dto_to_observation(&dto).expect("decodes");
    assert_eq!(observation, back);
}

#[test]
fn native_bytes_are_carried_as_base64() {
    let dto = native_string_to_dto(&NativeString::from_unix_bytes(b"hello".to_vec()));
    assert_eq!("UnixBytes", dto.encoding);
    assert_eq!("aGVsbG8=", dto.bytes_base64);
    assert_eq!(NativeString::from_unix_bytes(b"hello".to_vec()), dto_to_native_string(&dto).unwrap());
    let bad = NativeStringDto { encoding: "UnixBytes".to_owned(), bytes_base64: "***".to_owned() };
    assert!(matches!(dto_to_native_string(&bad), Err(EventStoreError::Corrupt(_))));
    let odd = NativeStringDto { encoding: "WindowsWtf16LittleEndian".to_owned(), bytes_base64: "AAAA".to_owned() };
    assert_eq!(
        Err(EventStoreError::Corrupt("Windows WTF-16 byte length must be even; got 3".to_owned())),
        dto_to_native_string(&odd)
    );
}

#[test]
fn non_utf8_command_round_trips_through_records() {
    round_trip(Observation::SessionStarted(SessionStarted::new(
        CommandSpec::new(
            NativePath::from_unix_bytes(vec![0x66, 0x80, 0x6f]),
            vec![NativeString::from_unix_bytes(vec![0xff, 0xfe]), NativeString::from_unix_bytes(vec![])],
            NativePath::from_windows_wtf16(&[0xd800, 0x0041]),
        ),
        Some(WorkspaceState::new(WorkspaceGeneration::new(3), Some(ContentDigest::blake3([9u8; 32])))),
    )));
}

#[test]
fn every_runtime_kind_round_trips() {
    let source = ObservationSource::new(SourceId::from_u128(42), ObservationSourceKind::FileSystem);
    let time = ObservationTime::both(UnixNanos::new(-5), MonotonicNanos::new(7));
    let path = NativePath::from_unix_bytes(b"/w/a.txt".to_vec());
    let kinds = vec![
        RuntimeObservationKind::ProcessExited(ProcessExited {
            process_id: ProcessInstanceId::from_u128(u128::MAX),
            termination: ProcessTermination::Signal(15),
        }),
        RuntimeObservationKind::FileMutationObserved(FileMutationObserved {
            path: path.clone(),
            kind: FileMutationKind::Renamed { from: NativePath::from_unix_bytes(b"/w/b.txt".to_vec()) },
        }),
        RuntimeObservationKind::WorkspaceStateAdvanced(WorkspaceStateAdvanced {
            transition: WorkspaceTransition::new(
                WorkspaceState::initial(),
                WorkspaceState::new(WorkspaceGeneration::new(1), None),
            )
            .unwrap(),
            cause_event: Some(EventId::from_u128(77)),
        }),
    ];
    for kind in kinds {
        round_trip(Observation::Runtime(RuntimeObservation::new(source, time, kind)));
    }
    round_trip(Observation::Runtime(RuntimeObservation::recorder_gap(
        provenance::event::GapScope::Output,
        GapReason::BufferOverflow,
        "lost".to_owned(),
    )));
    round_trip(Observation::SessionEnded(SessionEnded::new(SessionOutcome::Aborted, None)));
}

#[test]
fn records_name_their_values_in_text() {
    let dto = observation_to_dto(&Observation::SessionEnded(SessionEnded::new(SessionOutcome::CaptureFailed, None)));
    let ObservationDto::SessionEnded(ended) = dto else {
        panic!("end expected");
    };
    assert_eq!("CaptureFailed", ended.outcome);
    assert_eq!(Ok(GapReason::RecorderRestarted), str_to_gap_reason("RecorderRestarted"));
    assert_eq!(
        Err(EventStoreError::Corrupt("unknown GapReason Sideways".to_owned())),
        str_to_gap_reason("Sideways")
    );
}

#[test]
fn corrupt_records_are_refused() {
    let mut dto = observation_to_dto(&Observation::SessionEnded(SessionEnded::new(SessionOutcome::Completed, None)));
    if let ObservationDto::SessionEnded(ended) = &mut dto {
        ended.outcome = "Maybe".to_owned();
    }
    assert_eq!(
        Err(EventStoreError::Corrupt("unknown SessionOutcome Maybe".to_owned())),
        dto_to_observation(&dto)
    );
}
