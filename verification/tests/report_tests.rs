use provenance::event::{
    CommandSpec, EventEnvelope, GapReason, GapScope, Observation, ObservationSource, ObservationSourceKind,
    ProcessExited, ProcessStarted, ProcessTermination, RuntimeObservation, RuntimeObservationKind, SessionEnded,
    SessionOutcome, SessionStarted,
};
use provenance::identity::{EventId, EventSequence, ProcessInstanceId, SessionId, SourceId};
use provenance::native::{NativePath, NativeString};
use provenance::report::{build_validation_report, format_validation_human, validation_document};
use provenance::state::WorkspaceState;
use provenance::time::{ObservationTime, UnixNanos};
use provenance::validation::{CargoValidationKind, EvidenceContinuity, EvidenceFreshness};

fn envelope(seq: u64, observation: Observation) -> EventEnvelope {
    EventEnvelope::new(EventId::from_u128(seq as u128 + 10), SessionId::from_u128(1), EventSequence::new(seq), UnixNanos::new(0), observation)
}

fn cargo_test() -> CommandSpec {
    CommandSpec::new(
        NativePath::from_unix_bytes(b"/usr/bin/cargo".to_vec()),
        vec![NativeString::from_unix_bytes(b"test".to_vec())],
        NativePath::from_unix_bytes(b"/w".to_vec()),
    )
}

fn runtime(kind: RuntimeObservationKind) -> Observation {
    Observation::Runtime(RuntimeObservation::new(
        ObservationSource::new(SourceId::from_u128(1), ObservationSourceKind::Process),
        ObservationTime::unknown(),
        kind,
    ))
}

fn session(with_gap: bool) -> Vec<EventEnvelope> {
    let pid = ProcessInstanceId::from_u128(5);
    let mut events = vec![
        envelope(0, Observation::SessionStarted(SessionStarted::new(cargo_test(), Some(WorkspaceState::initial())))),
        envelope(1, runtime(RuntimeObservationKind::ProcessStarted(ProcessStarted {
            process_id: pid,
            parent_process_id: None,
            operating_system_pid: Some(1),
            command: cargo_test(),
            workspace_state: Some(WorkspaceState::initial()),
        }))),
        envelope(2, runtime(RuntimeObservationKind::ProcessExited(ProcessExited {
            process_id: pid,
            termination: ProcessTermination::ExitCode(0),
        }))),
    ];
    if with_gap {
        events.push(envelope(3, Observation::Runtime(RuntimeObservation::recorder_gap(
            GapScope::FileSystem,
            GapReason::Unsupported,
            "files".to_owned(),
        ))));
    }
    let n = events.len() as u64;
    events.push(envelope(n, Observation::SessionEnded(SessionEnded::new(SessionOutcome::Completed, Some(WorkspaceState::initial())))));
    events
}

#[test]
fn passing_check_on_the_final_state_is_current() {
    let report = build_validation_report(SessionId::from_u128(1), &session(false));
    let passing = report.last_passing.clone().expect("passing check");
    assert_eq!(CargoValidationKind::Test, passing.kind);
    assert_eq!(2, passing.sequence);
    assert_eq!(EvidenceFreshness::Current, report.freshness);
    assert_eq!(EvidenceContinuity::Complete, report.continuity);
    assert_eq!(
        "session 00000000000000000000000000000001\nlast passing: Test rule v1 event 0000000000000000000000000000000c seq=2\nfinal workspace generation: 0\nfreshness: Current\ncontinuity: Complete\n",
        format_validation_human(&report)
    );
}

#[test]
fn file_gap_after_the_check_makes_it_indeterminate() {
    let report = build_validation_report(SessionId::from_u128(1), &session(true));
    assert!(report.has_gap_after_validation);
    assert_eq!(EvidenceFreshness::Indeterminate, report.freshness);
    assert_eq!(EvidenceContinuity::GapObserved, report.continuity);
    assert!(format_validation_human(&report).ends_with("gap after validation: true\n"));
}

#[test]
fn report_document_lists_the_passing_exit() {
    let events = session(false);
    let report = build_validation_report(SessionId::from_u128(1), &events);
    let doc = validation_document(&report, &events);
    assert_eq!("00000000000000000000000000000001", doc.session_id);
    assert_eq!("Current", doc.freshness);
    assert_eq!("Complete", doc.continuity);
    assert_eq!(Some(0), doc.final_workspace_generation);
    let passing = doc.last_passing.expect("passing");
    assert_eq!("Test", passing.kind);
    assert_eq!("0000000000000000000000000000000c", passing.event_id);
    assert_eq!(1, doc.events.len());
    assert_eq!(2, doc.events[0].sequence);
}

#[test]
fn the_report_rests_on_the_last_passing_check() {
    // Two interleaved passing checks: the one whose exit comes last is the evidence.
    let first = ProcessInstanceId::from_u128(5);
    let second = ProcessInstanceId::from_u128(6);
    let started = |pid| runtime(RuntimeObservationKind::ProcessStarted(ProcessStarted {
        process_id: pid,
        parent_process_id: None,
        operating_system_pid: Some(1),
        command: cargo_test(),
        workspace_state: Some(WorkspaceState::initial()),
    }));
    let exited = |pid| runtime(RuntimeObservationKind::ProcessExited(ProcessExited {
        process_id: pid,
        termination: ProcessTermination::ExitCode(0),
    }));
    let events = vec![
        envelope(0, Observation::SessionStarted(SessionStarted::new(cargo_test(), Some(WorkspaceState::initial())))),
        envelope(1, started(first)),
        envelope(2, started(second)),
        envelope(3, exited(second)),
        envelope(4, exited(first)),
        envelope(5, Observation::SessionEnded(SessionEnded::new(SessionOutcome::Completed, Some(WorkspaceState::initial())))),
    ];
    let report = build_validation_report(SessionId::from_u128(1), &events);
    assert_eq!(4, report.last_passing.expect("passing").sequence);
}
