use provenance::event::{
    CommandSpec, EventEnvelope, FileMutationKind, FileMutationObserved, GapReason, GapScope, Observation,
    ObservationSource, ObservationSourceKind, ProcessExited, ProcessTermination, RuntimeObservation,
    RuntimeObservationKind, SessionEnded, SessionOutcome, SessionStarted,
};
use provenance::identity::{EventId, EventSequence, ProcessInstanceId, SessionId, SourceId};
use provenance::native::NativePath;
use provenance::projections::{
    filter_changes, filter_processes, filter_state, format_changes_human, format_processes_human, format_state_human,
    human_summary_for_event, projection_document, ProjectionKind,
};
use provenance::time::{ObservationTime, UnixNanos};

fn envelope(seq: u64, observation: Observation) -> EventEnvelope {
    EventEnvelope::new(EventId::from_u128(seq as u128 + 16), SessionId::from_u128(1), EventSequence::new(seq), UnixNanos::new(0), observation)
}

fn runtime(kind: RuntimeObservationKind) -> Observation {
    Observation::Runtime(RuntimeObservation::new(
        ObservationSource::new(SourceId::from_u128(1), ObservationSourceKind::Process),
        ObservationTime::unknown(),
        kind,
    ))
}

fn events() -> Vec<EventEnvelope> {
    vec![
        envelope(
            0,
            Observation::SessionStarted(SessionStarted::new(
                CommandSpec::new(NativePath::from_unix_bytes(b"/bin/sh".to_vec()), vec![], NativePath::from_unix_bytes(b"/".to_vec())),
                None,
            )),
        ),
        envelope(1, runtime(RuntimeObservationKind::ProcessExited(ProcessExited {
            process_id: ProcessInstanceId::from_u128(2),
            termination: ProcessTermination::ExitCode(0),
        }))),
        envelope(2, Observation::Runtime(RuntimeObservation::recorder_gap(GapScope::ProcessTree, GapReason::Unsupported, "d".to_owned()))),
        envelope(3, Observation::Runtime(RuntimeObservation::recorder_gap(GapScope::FileSystem, GapReason::Unsupported, "f".to_owned()))),
        envelope(4, runtime(RuntimeObservationKind::FileMutationObserved(FileMutationObserved {
            path: NativePath::from_unix_bytes(b"/w/a".to_vec()),
            kind: FileMutationKind::Renamed { from: NativePath::from_unix_bytes(vec![1, 2]) },
        }))),
        envelope(5, Observation::SessionEnded(SessionEnded::new(SessionOutcome::Completed, None))),
        envelope(6, Observation::Runtime(RuntimeObservation::recorder_gap(GapScope::WorkspaceState, GapReason::Unsupported, "w".to_owned()))),
    ]
}

#[test]
fn projections_select_their_events_in_order() {
    let all = events();
    let seqs = |v: Vec<&EventEnvelope>| v.iter().map(|e| e.sequence().value()).collect::<Vec<_>>();
    assert_eq!(vec![1, 2], seqs(filter_processes(&all)));
    assert_eq!(vec![3, 4], seqs(filter_changes(&all)));
    assert_eq!(vec![6], seqs(filter_state(&all)));
}

#[test]
fn summaries_describe_each_event() {
    let all = events();
    assert_eq!("SessionStarted exe=/bin/sh", human_summary_for_event(&all[0]));
    assert_eq!("ProcessExited id=00000000000000000000000000000002 ExitCode(0)", human_summary_for_event(&all[1]));
    assert_eq!("Gap ProcessTree Unsupported d", human_summary_for_event(&all[2]));
    assert_eq!(
        "FileMutation Renamed { from: NativePath { inner: NativeString { encoding: UnixBytes, units: [1, 2] } } } /w/a",
        human_summary_for_event(&all[4])
    );
    assert_eq!("SessionEnded Completed", human_summary_for_event(&all[5]));
}

#[test]
fn listings_count_and_list_the_projection() {
    let all = events();
    let session = SessionId::from_u128(1);
    assert_eq!(
        "session 00000000000000000000000000000001\nstate: 1 events\n  00000000000000000000000000000016 seq=6 Gap WorkspaceState Unsupported w\n",
        format_state_human(session, &all)
    );
    assert!(format_processes_human(session, &all).starts_with("session 00000000000000000000000000000001\nprocesses: 2 events\n"));
    assert!(format_changes_human(session, &all).contains("changes: 2 events"));
    let doc = projection_document(ProjectionKind::Changes, session, &all);
    assert_eq!(2, doc.events.len());
    assert_eq!(3, doc.events[0].sequence);
}

#[test]
fn state_projection_leaves_out_the_end_of_the_session() {
    let ended = vec![envelope(0, Observation::SessionEnded(SessionEnded::new(SessionOutcome::Completed, None)))];
    assert!(filter_state(&ended).is_empty());
    assert_eq!(0, projection_document(ProjectionKind::State, SessionId::from_u128(1), &ended).events.len());
}
