use provenance::cli::{
    load_failure, parse_command_line, resolve_db_path, wrapped_exit_code, CliRequest, HelpTopic, OutputFormat,
};
use provenance::event::{
    EventEnvelope, Observation, ObservationSource, ObservationSourceKind, ProcessExited, ProcessTermination,
    RuntimeObservation, RuntimeObservationKind,
};
use provenance::identity::{EventId, EventSequence, ProcessInstanceId, SessionId, SourceId};
use provenance::projections::ProjectionKind;
use provenance::store::EventStoreError;
use provenance::time::{ObservationTime, UnixNanos};

fn args(list: &[&str]) -> Vec<Option<String>> {
    list.iter().map(|a| Some((*a).to_owned())).collect()
}

/// The exit status a request ends with when it is answered without running anything.
fn status(request: &CliRequest) -> Option<u8> {
    match request {
        CliRequest::Help(_) | CliRequest::Version | CliRequest::SchemaVersion => Some(0),
        CliRequest::Message(_, code) => Some(*code),
        _ => None,
    }
}

#[test]
fn unknown_command_returns_usage_error() {
    assert_eq!(Some(2), status(&parse_command_line(&args(&["unknown"]))));
}

#[test]
fn help_returns_success() {
    assert_eq!(Some(0), status(&parse_command_line(&args(&["--help"]))));
}

#[test]
fn timeline_requires_session_id() {
    assert_eq!(Some(2), status(&parse_command_line(&args(&["timeline"]))));
}

#[test]
fn timeline_rejects_invalid_session_id() {
    assert_eq!(Some(2), status(&parse_command_line(&args(&["timeline", "nothex"]))));
}

#[test]
fn run_requires_separator() {
    assert_eq!(Some(2), status(&parse_command_line(&args(&["run", "/bin/echo"]))));
}

#[test]
fn run_requires_command_after_separator() {
    assert_eq!(Some(2), status(&parse_command_line(&args(&["run", "--"]))));
}

#[test]
fn messages_explain_refusals() {
    match parse_command_line(&args(&["frobnicate"])) {
        CliRequest::Message(lines, 2) => {
            assert_eq!(vec!["unknown command: frobnicate".to_owned(), "run `provenance --help` for usage".to_owned()], lines)
        },
        _ => panic!("refusal expected"),
    }
    match parse_command_line(&[Some("timeline".to_owned()), None]) {
        CliRequest::Message(lines, 2) => assert_eq!(vec!["argument is not valid UTF-8".to_owned()], lines),
        _ => panic!("refusal expected"),
    }
    match parse_command_line(&args(&["changes", "--bogus"])) {
        CliRequest::Message(lines, 2) => assert_eq!(vec!["unknown option for changes: --bogus".to_owned()], lines),
        _ => panic!("refusal expected"),
    }
    match parse_command_line(&args(&["state", "--help"])) {
        CliRequest::Message(lines, 0) => assert_eq!(
            vec!["usage: provenance state <SESSION_ID> [--db <PATH>] [--format human|json]".to_owned()],
            lines
        ),
        _ => panic!("usage expected"),
    }
    match parse_command_line(&args(&["timeline", "--format", "xml", "x"])) {
        CliRequest::Message(lines, 2) => assert_eq!(vec!["--format must be human or json".to_owned()], lines),
        _ => panic!("refusal expected"),
    }
    assert!(matches!(parse_command_line(&args(&["timeline", "-h"])), CliRequest::Help(HelpTopic::Timeline)));
    assert!(matches!(parse_command_line(&[]), CliRequest::Help(HelpTopic::Main)));
    assert!(matches!(parse_command_line(&args(&["-V"])), CliRequest::Version));
}

#[test]
fn queries_and_runs_are_read() {
    match parse_command_line(&args(&["processes", "00000000000000000000000000000002", "--db", "x.db", "--json"])) {
        CliRequest::Projection(ProjectionKind::Processes, q) => {
            assert_eq!(SessionId::from_u128(2), q.session_id);
            assert_eq!(Some("x.db".to_owned()), q.db_path);
            assert_eq!(OutputFormat::Json, q.format);
        },
        _ => panic!("projection expected"),
    }
    match parse_command_line(&args(&["run", "--db", "r.db", "--", "/bin/sh", "-c", "exit 3"])) {
        CliRequest::Run(r) => {
            assert_eq!(Some("r.db".to_owned()), r.db_path);
            assert_eq!("/bin/sh", r.executable);
            assert_eq!(vec!["-c".to_owned(), "exit 3".to_owned()], r.arguments);
        },
        _ => panic!("run expected"),
    }
}

fn exited(sequence: u64, termination: ProcessTermination) -> EventEnvelope {
    EventEnvelope::new(
        EventId::from_u128(sequence as u128),
        SessionId::from_u128(1),
        EventSequence::new(sequence),
        UnixNanos::new(0),
        Observation::Runtime(RuntimeObservation::new(
            ObservationSource::new(SourceId::from_u128(1), ObservationSourceKind::Process),
            ObservationTime::unknown(),
            RuntimeObservationKind::ProcessExited(ProcessExited { process_id: ProcessInstanceId::from_u128(3), termination }),
        )),
    )
}

#[test]
fn run_hands_on_how_the_command_ended() {
    assert_eq!(0, wrapped_exit_code(&[]));
    assert_eq!(42, wrapped_exit_code(&[exited(0, ProcessTermination::ExitCode(42))]));
    assert_eq!(143, wrapped_exit_code(&[exited(0, ProcessTermination::Signal(15))]));
    assert_eq!(1, wrapped_exit_code(&[exited(0, ProcessTermination::ExitCode(-1))]));
    assert_eq!(1, wrapped_exit_code(&[exited(0, ProcessTermination::ExitCode(256))]));
    assert_eq!(1, wrapped_exit_code(&[exited(0, ProcessTermination::Unknown)]));
    assert_eq!(
        7,
        wrapped_exit_code(&[exited(0, ProcessTermination::ExitCode(1)), exited(1, ProcessTermination::ExitCode(7))])
    );
}

#[test]
fn failed_loads_have_distinct_statuses() {
    assert_eq!(
        Some(("corrupt row for session s: bad".to_owned(), 4)),
        load_failure("s", &Err(EventStoreError::Corrupt("bad".to_owned())))
    );
    assert_eq!(
        Some(("corrupt row for session s: database disk image is CORRUPT".to_owned(), 4)),
        load_failure("s", &Err(EventStoreError::Unavailable("database disk image is CORRUPT".to_owned())))
    );
    assert_eq!(
        Some(("event store unavailable: locked".to_owned(), 5)),
        load_failure("s", &Err(EventStoreError::Unavailable("locked".to_owned())))
    );
    assert_eq!(
        Some(("failed to load session s: event sequence is exhausted".to_owned(), 5)),
        load_failure("s", &Err(EventStoreError::SequenceExhausted))
    );
    assert_eq!(Some(("unknown session: s".to_owned(), 3)), load_failure("s", &Ok(Vec::new())));
    assert_eq!(None, load_failure("s", &Ok(vec![exited(0, ProcessTermination::Unknown)])));
}

#[test]
fn database_path_prefers_the_command_line_then_the_environment() {
    assert_eq!("a.db", resolve_db_path(Some("a.db".to_owned()), Some("b.db".to_owned())));
    assert_eq!("b.db", resolve_db_path(None, Some("b.db".to_owned())));
    assert_eq!(".provenance/provenance.db", resolve_db_path(None, Some(String::new())));
    assert_eq!(".provenance/provenance.db", resolve_db_path(None, None));
}
