use std::collections::VecDeque;

use provenance::capture::{CaptureError, CaptureRequest};
use provenance::clock::{Clock, IdGenerator};
use provenance::event::{
    CommandSpec, FileMutationKind, GapReason, GapScope, Observation, ObservationSourceKind, ProcessTermination,
    RuntimeObservationKind,
    SessionOutcome,
};
use provenance::identity::{EventId, ProcessInstanceId, SessionId};
use provenance::linux_capture::{CaptureLoop, LinuxCaptureAdapter, LoopAction, LoopEvent};
use provenance::memory::InMemoryEventStore;
use provenance::native::NativePath;
use provenance::file_changes::{file_changes, record_workspace_changes, FileRecord};
use provenance::process_tree::{process_command, ProcessEntry, ProcessTree};
use provenance::scope::WorkspaceScope;
use provenance::recorder::SessionRecorder;
use provenance::state::WorkspaceState;
use provenance::time::{ObservationTime, UnixNanos};

struct Ticks(i64);

impl Clock for Ticks {
    fn now(&mut self) -> UnixNanos {
        self.0 += 1;
        UnixNanos::new(self.0)
    }
}

struct Counter(VecDeque<u128>);

impl IdGenerator for Counter {
    fn next_session_id(&mut self) -> SessionId {
        SessionId::from_u128(self.0.pop_front().expect("id"))
    }

    fn next_event_id(&mut self) -> EventId {
        EventId::from_u128(self.0.pop_front().expect("id"))
    }
}

fn command_for_bin(bin: &str) -> CommandSpec {
    CommandSpec::new(
        NativePath::from_unix_bytes(bin.as_bytes().to_vec()),
        Vec::new(),
        NativePath::from_unix_bytes(b"/tmp".to_vec()),
    )
}

fn recorder(command: &CommandSpec) -> SessionRecorder<InMemoryEventStore, Ticks, Counter> {
    SessionRecorder::start(
        InMemoryEventStore::default(),
        Ticks(9),
        Counter((100..120).collect()),
        command.clone(),
        Some(WorkspaceState::initial()),
    )
    .expect("start recorder")
}

struct FixedClock {
    values: VecDeque<UnixNanos>,
}

impl FixedClock {
    fn new(values: impl IntoIterator<Item = i64>) -> Self {
        Self { values: values.into_iter().map(UnixNanos::new).collect() }
    }
}

impl Clock for FixedClock {
    fn now(&mut self) -> UnixNanos {
        self.values.pop_front().expect("fixed clock")
    }
}

struct FixedIds {
    session_ids: VecDeque<SessionId>,
    event_ids: VecDeque<EventId>,
}

impl FixedIds {
    fn new(session_ids: &[u128], event_ids: &[u128]) -> Self {
        Self {
            session_ids: session_ids.iter().copied().map(SessionId::from_u128).collect(),
            event_ids: event_ids.iter().copied().map(EventId::from_u128).collect(),
        }
    }
}

impl IdGenerator for FixedIds {
    fn next_session_id(&mut self) -> SessionId {
        self.session_ids.pop_front().expect("session id")
    }

    fn next_event_id(&mut self) -> EventId {
        self.event_ids.pop_front().expect("event id")
    }
}

/// The adapter's steps for `/bin/true`, which starts and exits with code 0.
#[test]
fn linux_adapter_emits_gaps_on_linux() {
    let mut recorder = SessionRecorder::start(
        InMemoryEventStore::default(),
        FixedClock::new([100, 101, 102, 103, 104, 105, 106]),
        FixedIds::new(&[1], &[10, 11, 12, 13, 14, 15, 16]),
        command_for_bin("/bin/true"),
        None,
    )
    .expect("start recorder");
    let request = CaptureRequest::new(command_for_bin("/bin/true"), None);
    let process_id = LinuxCaptureAdapter::new_process_instance_id(1);
    let result = LinuxCaptureAdapter::started(
        &mut recorder,
        &request,
        process_id,
        4321,
        LinuxCaptureAdapter::now_observation_time(),
    )
    .and_then(|()| {
        LinuxCaptureAdapter::exited(
            &mut recorder,
            &request,
            process_id,
            LinuxCaptureAdapter::termination(Some(0), None),
            false,
            LinuxCaptureAdapter::now_observation_time(),
        )
    });
    assert!(result.is_ok(), "linux adapter should succeed for /bin/true: {result:?}");
    let session_id = recorder.session_id();
    let completed = recorder.finish(SessionOutcome::Completed, None).unwrap();
    let (store, _, _) = completed.into_parts();
    let events = store.events(session_id);
    let mut has_process_started = false;
    let mut has_process_exited = false;
    let mut gap_scopes = Vec::new();
    for event in events {
        if let Observation::Runtime(runtime) = event.observation() {
            match runtime.kind() {
                RuntimeObservationKind::ProcessStarted(_) => has_process_started = true,
                RuntimeObservationKind::ProcessExited(_) => has_process_exited = true,
                RuntimeObservationKind::ObservationGap(gap) => gap_scopes.push(gap.scope),
                _ => {}
            }
        }
    }
    assert!(has_process_started, "should have ProcessStarted");
    assert!(has_process_exited, "should have ProcessExited");
    assert!(gap_scopes.contains(&GapScope::ProcessTree), "should have ProcessTree gap");
    assert!(gap_scopes.contains(&GapScope::FileSystem), "should have FileSystem gap");
}

#[test]
fn adapter_records_start_gaps_and_exit() {
    let command = command_for_bin("/bin/true");
    let request = CaptureRequest::new(command.clone(), Some(WorkspaceState::initial()));
    let mut rec = recorder(&command);
    let pid = ProcessInstanceId::from_u128(5);
    LinuxCaptureAdapter::started(&mut rec, &request, pid, 4242, ObservationTime::wall_clock(UnixNanos::new(1)))
        .expect("started");
    let termination = LinuxCaptureAdapter::termination(Some(0), None);
    let outcome = LinuxCaptureAdapter::exited(&mut rec, &request, pid, termination, false, ObservationTime::unknown())
        .expect("exited");
    assert_eq!(SessionOutcome::Completed, outcome.session_outcome());
    assert_eq!(Some(&WorkspaceState::initial()), outcome.final_workspace());
    let session = rec.finish(SessionOutcome::Completed, None).expect("finish");
    let id = session.session_id();
    let (store, _, _) = session.into_parts();
    let events = store.events(id);
    assert_eq!(6, events.len());
    let Observation::Runtime(started) = events[1].observation() else { panic!("start") };
    assert_eq!(ObservationSourceKind::Process, started.source().kind());
    let RuntimeObservationKind::ProcessStarted(ps) = started.kind() else { panic!("start") };
    assert_eq!(Some(4242), ps.operating_system_pid);
    assert_eq!(None, ps.parent_process_id);
    let Observation::Runtime(g1) = events[2].observation() else { panic!("gap") };
    let RuntimeObservationKind::ObservationGap(g1) = g1.kind() else { panic!("gap") };
    assert_eq!(GapScope::ProcessTree, g1.scope);
    assert_eq!(GapReason::BufferOverflow, g1.reason);
    let Observation::Runtime(g2) = events[3].observation() else { panic!("gap") };
    let RuntimeObservationKind::ObservationGap(g2) = g2.kind() else { panic!("gap") };
    assert_eq!(GapScope::FileSystem, g2.scope);
    let Observation::Runtime(ex) = events[4].observation() else { panic!("exit") };
    let RuntimeObservationKind::ProcessExited(ex) = ex.kind() else { panic!("exit") };
    assert_eq!(ProcessTermination::ExitCode(0), ex.termination);
}

#[test]
fn failed_spawn_still_records_both_gaps() {
    let command = command_for_bin("/no/such/binary");
    let mut rec = recorder(&command);
    let request = CaptureRequest::new(command.clone(), None);
    let result = LinuxCaptureAdapter::spawn_failed(&mut rec, &request, "No such file or directory");
    assert_eq!(
        Err(CaptureError::Failed("failed to spawn /no/such/binary: No such file or directory".to_owned())),
        result
    );
    assert_eq!(2, rec.last_sequence().value());
}

#[test]
fn cancellation_aborts_without_a_final_workspace() {
    let command = command_for_bin("/bin/sleep");
    let request = CaptureRequest::new(command.clone(), Some(WorkspaceState::initial()));
    let mut rec = recorder(&command);
    let termination = LinuxCaptureAdapter::termination(None, Some(9));
    assert_eq!(ProcessTermination::Signal(9), termination);
    assert_eq!(ProcessTermination::Unknown, LinuxCaptureAdapter::termination(None, None));
    let outcome = LinuxCaptureAdapter::exited(
        &mut rec,
        &request,
        ProcessInstanceId::from_u128(1),
        termination,
        true,
        ObservationTime::unknown(),
    )
    .expect("exited");
    assert_eq!(SessionOutcome::Aborted, outcome.session_outcome());
    assert_eq!(None, outcome.final_workspace());
    assert_eq!(
        CaptureError::Failed("failed to wait after kill: gone".to_owned()),
        LinuxCaptureAdapter::wait_failed(true, "gone")
    );
}

#[test]
fn fallback_instance_id_mixes_pid_into_upper_half() {
    let id = LinuxCaptureAdapter::fallback_process_instance_id(0x1234, 7);
    assert_eq!(id.as_u128(), 0x1234 | (7u128 << 64));
    let overlapping = LinuxCaptureAdapter::fallback_process_instance_id(3u128 << 64, 1);
    assert_eq!(overlapping.as_u128(), 2u128 << 64);
}

fn entry(os_pid: u32, parent_os_pid: u32, running: bool) -> ProcessEntry {
    ProcessEntry { os_pid, parent_os_pid, running }
}

#[test]
fn descendants_are_followed_with_their_parent_links() {
    let command = command_for_bin("/bin/sh");
    let request = CaptureRequest::new(command.clone(), None);
    let mut rec = recorder(&command);
    let root = ProcessInstanceId::from_u128(1);
    let at = ObservationTime::unknown();
    LinuxCaptureAdapter::started(&mut rec, &request, root, 100, at).expect("started");
    let mut tree = ProcessTree::rooted(100, root);

    // First look: the child of the root and its own child, and an unrelated process.
    let table = vec![entry(100, 1, true), entry(200, 100, true), entry(300, 200, true), entry(400, 1, true)];
    tree.observe_exits(&table, &mut rec, at).expect("look");
    assert_eq!(vec![entry(200, 100, true)], tree.candidates(&table));
    let child = ProcessInstanceId::from_u128(2);
    assert_eq!(Ok(true), tree.adopt(entry(200, 100, true), command_for_bin("/bin/sh"), child, &mut rec, at));
    assert_eq!(vec![entry(300, 200, true)], tree.candidates(&table));
    let grandchild = ProcessInstanceId::from_u128(3);
    assert_eq!(Ok(true), tree.adopt(entry(300, 200, true), command_for_bin("/bin/sleep"), grandchild, &mut rec, at));
    assert!(tree.candidates(&table).is_empty());
    // Following the same process twice, or one without a followed parent, records nothing.
    assert_eq!(Ok(false), tree.adopt(entry(300, 200, true), command_for_bin("/bin/sleep"), grandchild, &mut rec, at));
    assert_eq!(Ok(false), tree.adopt(entry(400, 1, true), command_for_bin("/bin/x"), grandchild, &mut rec, at));

    // Second look: the grandchild is a zombie and the child is gone.
    let table = vec![entry(100, 1, true), entry(300, 1, false)];
    tree.observe_exits(&table, &mut rec, at).expect("look");
    let running: Vec<bool> = tree.processes().iter().map(|p| p.running).collect();
    assert_eq!(vec![true, false, false], running);

    let session = rec.finish(SessionOutcome::Completed, None).expect("finish");
    let id = session.session_id();
    let (store, _, _) = session.into_parts();
    let events = store.events(id);
    let runtime: Vec<&RuntimeObservationKind> = events
        .iter()
        .filter_map(|e| match e.observation() {
            Observation::Runtime(r) => Some(r.kind()),
            _ => None,
        })
        .collect();
    // Root start, two gaps, the two descendants' starts, their two exits.
    assert_eq!(7, runtime.len());
    let RuntimeObservationKind::ProcessStarted(c) = runtime[3] else { panic!("child start") };
    assert_eq!((child, Some(root), Some(200)), (c.process_id, c.parent_process_id, c.operating_system_pid));
    let RuntimeObservationKind::ProcessStarted(g) = runtime[4] else { panic!("grandchild start") };
    assert_eq!((grandchild, Some(child), Some(300)), (g.process_id, g.parent_process_id, g.operating_system_pid));
    let RuntimeObservationKind::ProcessExited(e1) = runtime[5] else { panic!("child exit") };
    assert_eq!((child, ProcessTermination::Unknown), (e1.process_id, e1.termination));
    let RuntimeObservationKind::ProcessExited(e2) = runtime[6] else { panic!("grandchild exit") };
    assert_eq!(grandchild, e2.process_id);
}

#[test]
fn stat_lines_give_the_process_and_its_parent() {
    assert_eq!(
        Some(entry(123, 45, true)),
        ProcessEntry::from_stat(b"123 (a) b) S 45 123 123 0 -1 4194560\n")
    );
    assert_eq!(Some(entry(9, 1, false)), ProcessEntry::from_stat(b"9 (sleep) Z 1 9 9 0"));
    assert_eq!(Some(entry(9, 1, false)), ProcessEntry::from_stat(b"9 (x) X 1 9"));
    assert_eq!(None, ProcessEntry::from_stat(b"9 (x) S 1"));
    assert_eq!(None, ProcessEntry::from_stat(b"4294967296 (x) S 1 0"));
    assert_eq!(None, ProcessEntry::from_stat(b"12 no parens S 1 0"));
    assert_eq!(None, ProcessEntry::from_stat(b"12 (x) S -1 0"));
}

#[test]
fn proc_command_drops_the_program_name() {
    let c = process_command(b"/bin/sleep".to_vec(), b"sleep\x000.05\x00", b"/tmp".to_vec());
    assert_eq!(command_with_args("/bin/sleep", &[b"0.05"], "/tmp"), c);
    let c = process_command(b"/bin/x".to_vec(), b"", b"/".to_vec());
    assert!(c.arguments().is_empty());
    let c = process_command(b"/bin/x".to_vec(), b"x\x00a\x00\xffb", b"/".to_vec());
    assert_eq!(command_with_args("/bin/x", &[b"a"], "/"), c);
}

fn command_with_args(exe: &str, args: &[&[u8]], cwd: &str) -> CommandSpec {
    CommandSpec::new(
        NativePath::from_unix_bytes(exe.as_bytes().to_vec()),
        args.iter().map(|a| provenance::native::NativeString::from_unix_bytes(a.to_vec())).collect(),
        NativePath::from_unix_bytes(cwd.as_bytes().to_vec()),
    )
}

fn file(path: &str, size: u64, modified: i128) -> FileRecord {
    FileRecord { path: NativePath::from_unix_bytes(path.as_bytes().to_vec()), size, modified }
}

fn scope() -> WorkspaceScope {
    WorkspaceScope::new(
        NativePath::from_unix_bytes(b"/w".to_vec()),
        Some(NativePath::from_unix_bytes(b"/w/records/db.sqlite".to_vec())),
    )
}

#[test]
fn workspace_changes_between_two_looks() {
    let before = vec![file("/w/a", 1, 1), file("/w/b", 2, 2), file("/w/target/x.o", 1, 1), file("/w/gone", 3, 3)];
    let after = vec![
        file("/w/a", 1, 1),
        file("/w/b", 2, 9),
        file("/w/hello.txt", 6, 4),
        file("/w/target/y.o", 1, 1),
        file("/w/records/db.sqlite-wal", 1, 1),
        file("/elsewhere", 1, 1),
    ];
    let changes = file_changes(&scope(), &before, &after);
    let summary: Vec<(Vec<u8>, FileMutationKind)> =
        changes.iter().map(|m| (m.path.units().to_vec(), m.kind.clone())).collect();
    assert_eq!(
        vec![
            (b"/w/b".to_vec(), FileMutationKind::Modified),
            (b"/w/hello.txt".to_vec(), FileMutationKind::Created),
            (b"/w/gone".to_vec(), FileMutationKind::Deleted),
        ],
        summary
    );
}

#[test]
fn a_watched_workspace_opens_without_a_file_system_gap() {
    let command = command_for_bin("/bin/sh");
    let request = CaptureRequest::with_scope(command.clone(), None, scope());
    let mut rec = recorder(&command);
    let root = ProcessInstanceId::from_u128(1);
    LinuxCaptureAdapter::started(&mut rec, &request, root, 100, ObservationTime::unknown()).expect("started");
    record_workspace_changes(&mut rec, &request, &[], &[file("/w/hello.txt", 6, 4)], ObservationTime::unknown())
        .expect("changes");
    // Without a workspace, nothing is recorded for the files.
    let unwatched = CaptureRequest::new(command.clone(), None);
    record_workspace_changes(&mut rec, &unwatched, &[], &[file("/w/x", 1, 1)], ObservationTime::unknown())
        .expect("no changes");
    let session = rec.finish(SessionOutcome::Completed, None).expect("finish");
    let id = session.session_id();
    let (store, _, _) = session.into_parts();
    let events = store.events(id);
    assert_eq!(5, events.len());
    let Observation::Runtime(gap) = events[2].observation() else { panic!("gap") };
    let RuntimeObservationKind::ObservationGap(gap) = gap.kind() else { panic!("gap") };
    assert_eq!((GapScope::ProcessTree, GapReason::BufferOverflow), (gap.scope, gap.reason));
    let Observation::Runtime(change) = events[3].observation() else { panic!("change") };
    assert_eq!(ObservationSourceKind::FileSystem, change.source().kind());
    let RuntimeObservationKind::FileMutationObserved(m) = change.kind() else { panic!("change") };
    assert_eq!((b"/w/hello.txt".as_slice(), &FileMutationKind::Created), (m.path.units(), &m.kind));
}

#[test]
fn an_unchanged_workspace_shows_no_change() {
    let look = vec![file("/w/a", 1, 1), file("/w/b/c", 2, 2), file("/w/target/x.o", 3, 3)];
    assert!(file_changes(&scope(), &look, &look).is_empty());
}

#[test]
fn the_wait_kills_once_on_a_signal_and_ends_on_the_exit() {
    let step = LinuxCaptureAdapter::capture_step;
    assert_eq!((CaptureLoop::Waiting, LoopAction::LookAndPoll), step(CaptureLoop::Waiting, LoopEvent::RootRunning));
    assert_eq!((CaptureLoop::Killed, LoopAction::KillAndWait), step(CaptureLoop::Waiting, LoopEvent::Cancelled));
    assert_eq!((CaptureLoop::Killed, LoopAction::Finish), step(CaptureLoop::Killed, LoopEvent::RootExited));
    assert_eq!((CaptureLoop::Waiting, LoopAction::Finish), step(CaptureLoop::Waiting, LoopEvent::RootExited));
    assert_eq!(
        (CaptureLoop::Killed, LoopAction::Fail { after_kill: true }),
        step(CaptureLoop::Killed, LoopEvent::WaitFailed)
    );
    assert_eq!(
        (CaptureLoop::Waiting, LoopAction::Fail { after_kill: false }),
        step(CaptureLoop::Waiting, LoopEvent::WaitFailed)
    );
}
