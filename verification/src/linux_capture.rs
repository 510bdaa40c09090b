//! The Linux capture adapter's decisions: what it records when the child process starts,
//! fails to start or exits, and how the capture ends.
//!
//! The adapter runs the requested command as a child process and follows its descendants
//! through looks at the process table (see `process_tree`), and records the file changes
//! in the request's workspace (see `file_changes`). Every session it produces reports as a
//! gap the descendants that start and exit between two looks, and, when the request names
//! no workspace, the file mutations. Starting, waiting for and signalling the child and
//! reading the process table and the workspace are left to the caller, which hands each
//! step's result to the functions here.

use vstd::prelude::*;
use crate::capture::{prefix_of, CaptureError, CaptureOutcome, CaptureOutcomeView, CaptureRequest, ObservationSink};
use crate::event::{
    GapReason, GapScope, ObservationSource, ObservationSourceKind, ObservationSourceView, ObservationView,
    ProcessExited, ProcessExitedView, ProcessStarted, ProcessStartedView, ProcessTermination, RuntimeKindView,
    RuntimeObservation, RuntimeObservationKind, RuntimeObservationView, SessionOutcome,
};
use crate::identity::{ProcessInstanceId, SourceId};
use crate::native::{lossy_text, NativePath};
use crate::recorder::recording_failure;
use crate::state::duplicate_state_option;
use crate::system::{epoch_offset_nanos, nanos_since_epoch, random_u128, unix_nanos_from_offset};
use crate::text::{push_str, string_of};
use crate::time::{ObservationTime, UnixNanos};

verus! {

/// Captures a command's processes on Linux.
#[derive(Clone, Copy, Debug, Default)]
pub struct LinuxCaptureAdapter;

/// The source that reports the root process and its descendants.
pub open spec fn root_source() -> ObservationSourceView {
    ObservationSourceView { id: 1, kind: ObservationSourceKind::Process }
}

/// The gap for the descendant processes that start and exit between two looks at the
/// process table, which are not observed.
pub open spec fn descendant_gap() -> RuntimeObservationView {
    RuntimeObservation::spec_recorder_gap(
        GapScope::ProcessTree,
        GapReason::BufferOverflow,
        "processes that start and exit between two looks at the process table are not observed"@,
    )
}

/// The gap for the file mutations, not observed when no workspace is named.
pub open spec fn filesystem_gap() -> RuntimeObservationView {
    RuntimeObservation::spec_recorder_gap(
        GapScope::FileSystem,
        GapReason::Unsupported,
        "filesystem mutation capture not yet implemented"@,
    )
}

/// The gaps every session of the adapter opens with: descendants too short-lived to be
/// seen, and, when the request names no workspace to watch, file mutations.
pub open spec fn opening_gaps(request: crate::capture::CaptureRequestView) -> Seq<RuntimeObservationView> {
    if request.workspace_scope is None {
        seq![descendant_gap(), filesystem_gap()]
    } else {
        seq![descendant_gap()]
    }
}

/// The sink accepted exactly the observations `added`, in order, after what it held.
pub open spec fn appended(before: Seq<crate::event::EnvelopeView>, after: Seq<crate::event::EnvelopeView>, added: Seq<RuntimeObservationView>) -> bool {
    &&& after.len() == before.len() + added.len()
    &&& after.subrange(0, before.len() as int) == before
    &&& forall|i: int| 0 <= i < added.len() ==> #[trigger] after[before.len() + i].observation == ObservationView::Runtime(added[i])
}

/// How a process ended, from its exit code or else the signal that ended it.
pub open spec fn termination_of(code: Option<i32>, signal: Option<i32>) -> ProcessTermination {
    match code {
        Some(c) => ProcessTermination::ExitCode(c),
        None => match signal {
            Some(s) => ProcessTermination::Signal(s),
            None => ProcessTermination::Unknown,
        },
    }
}

/// How the capture ends once the root process has exited: `Aborted` without a final
/// workspace when it was cancelled, `Completed` with the initial workspace otherwise.
pub open spec fn exit_outcome(request: crate::capture::CaptureRequestView, cancelled: bool) -> CaptureOutcomeView {
    if cancelled {
        CaptureOutcomeView { session_outcome: SessionOutcome::Aborted, final_workspace: None }
    } else {
        CaptureOutcomeView { session_outcome: SessionOutcome::Completed, final_workspace: request.initial_workspace }
    }
}

/// Where the capture's wait for the root process stands.
#[derive(Clone, Copy, Debug, PartialEq, Eq, Structural)]
pub enum CaptureLoop {
    /// The root process runs and is polled.
    Waiting,
    /// A termination signal arrived and the root process was killed.
    Killed,
}

/// What the caller saw since the last step.
#[derive(Clone, Copy, Debug, PartialEq, Eq, Structural)]
pub enum LoopEvent {
    /// A termination signal arrived.
    Cancelled,
    /// The root process has exited.
    RootExited,
    /// The root process still runs.
    RootRunning,
    /// Waiting for the root process failed.
    WaitFailed,
}

/// What the caller does next.
#[derive(Clone, Copy, Debug, PartialEq, Eq, Structural)]
pub enum LoopAction {
    /// Kill the root process and wait until it has exited.
    KillAndWait,
    /// Look at the process table, pause, then check for a signal and poll the root again.
    LookAndPoll,
    /// The root process has exited: look once more, then record the workspace changes and
    /// the exit.
    Finish,
    /// Waiting failed: the capture fails with `wait_failed(after_kill, ..)`.
    Fail { after_kill: bool },
}

/// The step of the capture's wait: a signal kills the root process once; its exit ends the
/// wait; a failed wait ends the capture, noting whether it followed the kill; while the
/// root runs, the process table is looked at between polls.
pub open spec fn next_step(state: CaptureLoop, event: LoopEvent) -> (CaptureLoop, LoopAction) {
    match (state, event) {
        (CaptureLoop::Waiting, LoopEvent::Cancelled) => (CaptureLoop::Killed, LoopAction::KillAndWait),
        (CaptureLoop::Waiting, LoopEvent::RootExited) => (CaptureLoop::Waiting, LoopAction::Finish),
        (CaptureLoop::Waiting, LoopEvent::RootRunning) => (CaptureLoop::Waiting, LoopAction::LookAndPoll),
        (CaptureLoop::Waiting, LoopEvent::WaitFailed) => (CaptureLoop::Waiting, LoopAction::Fail { after_kill: false }),
        (CaptureLoop::Killed, LoopEvent::RootExited) => (CaptureLoop::Killed, LoopAction::Finish),
        (CaptureLoop::Killed, LoopEvent::WaitFailed) => (CaptureLoop::Killed, LoopAction::Fail { after_kill: true }),
        (CaptureLoop::Killed, _) => (CaptureLoop::Killed, LoopAction::KillAndWait),
    }
}

impl LinuxCaptureAdapter {
    /// The step of the capture's wait, as `next_step` says.
    pub fn capture_step(state: CaptureLoop, event: LoopEvent) -> (r: (CaptureLoop, LoopAction))
        ensures
            r == next_step(state, event),
    {
        match (state, event) {
            (CaptureLoop::Waiting, LoopEvent::Cancelled) => (CaptureLoop::Killed, LoopAction::KillAndWait),
            (CaptureLoop::Waiting, LoopEvent::RootExited) => (CaptureLoop::Waiting, LoopAction::Finish),
            (CaptureLoop::Waiting, LoopEvent::RootRunning) => (CaptureLoop::Waiting, LoopAction::LookAndPoll),
            (CaptureLoop::Waiting, LoopEvent::WaitFailed) => (CaptureLoop::Waiting, LoopAction::Fail { after_kill: false }),
            (CaptureLoop::Killed, LoopEvent::RootExited) => (CaptureLoop::Killed, LoopAction::Finish),
            (CaptureLoop::Killed, LoopEvent::WaitFailed) => (CaptureLoop::Killed, LoopAction::Fail { after_kill: true }),
            (CaptureLoop::Killed, _) => (CaptureLoop::Killed, LoopAction::KillAndWait),
        }
    }
}

impl LinuxCaptureAdapter {
    /// The source that reports the root process and its descendants.
    pub fn process_source() -> (r: ObservationSource)
        ensures
            r@ == root_source(),
    {
        ObservationSource::new(SourceId::from_u128(1), ObservationSourceKind::Process)
    }

    /// A fresh identifier for the root process: random, or when the random source fails,
    /// the clock's nanoseconds mixed with the recorder's process id.
    pub fn new_process_instance_id(recorder_pid: u32) -> (r: ProcessInstanceId) {
        match random_u128() {
            Some(v) => ProcessInstanceId::from_u128(v),
            None => Self::fallback_process_instance_id(nanos_since_epoch(), recorder_pid),
        }
    }

    /// The identifier used when the random source fails: the clock's nanoseconds, with
    /// the recorder's process id mixed into the upper 64 bits by exclusive or.
    pub fn fallback_process_instance_id(nanos: u128, recorder_pid: u32) -> (r: ProcessInstanceId)
        ensures
            r@ == nanos ^ ((recorder_pid as u128) << 64u128),
    {
        let pid = recorder_pid as u128;
        ProcessInstanceId::from_u128(nanos ^ (pid << 64u128))
    }

    /// The current wall-clock time, saturating at both ends of the signed range; it is
    /// never below `-i64::MAX`.
    pub fn now_unix_nanos() -> (r: UnixNanos)
        ensures
            r@ > i64::MIN,
    {
        unix_nanos_from_offset(epoch_offset_nanos())
    }

    /// The current wall-clock time; the monotonic clock is not read.
    pub fn now_observation_time() -> (r: ObservationTime)
        ensures
            r@.wall_clock matches Some(w) && w > i64::MIN,
            r@.monotonic is None,
    {
        ObservationTime::wall_clock(Self::now_unix_nanos())
    }

    /// Records the gaps a session opens with, as `opening_gaps` says.
    fn record_gaps<K: ObservationSink>(sink: &mut K, request: &CaptureRequest) -> (r: Result<(), CaptureError>)
        requires
            old(sink).ready(),
        ensures
            final(sink).ready(),
            prefix_of(old(sink).accepted(), final(sink).accepted()),
            r is Ok ==> appended(old(sink).accepted(), final(sink).accepted(), opening_gaps(request@)),
            r matches Err(e) ==> e matches CaptureError::ObservationSink(se) && recording_failure(se, final(sink).accepted().len()),
    {
        let ghost start = sink.accepted();
        match sink.record(
            RuntimeObservation::recorder_gap(
                GapScope::ProcessTree,
                GapReason::BufferOverflow,
                string_of("processes that start and exit between two looks at the process table are not observed"),
            ),
        ) {
            Ok(()) => {},
            Err(e) => {
                assert(sink.accepted().subrange(0, start.len() as int) =~= start);
                return Err(CaptureError::ObservationSink(e));
            },
        }
        let ghost middle = sink.accepted();
        proof {
            assert(middle.subrange(0, start.len() as int) =~= start);
            assert(middle[start.len() + 0int] == middle.last());
        }
        if request.workspace_scope().is_some() {
            assert(appended(start, middle, seq![descendant_gap()]));
            return Ok(());
        }
        match sink.record(
            RuntimeObservation::recorder_gap(
                GapScope::FileSystem,
                GapReason::Unsupported,
                string_of("filesystem mutation capture not yet implemented"),
            ),
        ) {
            Ok(()) => {},
            Err(e) => {
                assert(sink.accepted().subrange(0, start.len() as int) =~= start);
                return Err(CaptureError::ObservationSink(e));
            },
        }
        proof {
            let after = sink.accepted();
            assert(after.subrange(0, middle.len() as int) == middle);
            assert(after.subrange(0, start.len() as int) =~= start);
            assert(after[start.len() as int] == middle[start.len() as int]);
            assert(after[start.len() + 0int] == after[start.len() as int]);
            let added = seq![descendant_gap(), filesystem_gap()];
            assert forall|i: int| 0 <= i < added.len() implies #[trigger] after[start.len() + i].observation
                == ObservationView::Runtime(added[i]) by {
                if i == 0 {
                    assert(after[start.len() + i] == middle.last());
                } else {
                    assert(after[start.len() + i] == after.last());
                }
            }
        }
        Ok(())
    }

    /// The child could not be started: the opening gaps are still recorded and the capture
    /// fails with the executable's display text and the launcher's error.
    pub fn spawn_failed<K: ObservationSink>(sink: &mut K, request: &CaptureRequest, error: &str) -> (r: Result<
        CaptureOutcome,
        CaptureError,
    >)
        requires
            old(sink).ready(),
        ensures
            final(sink).ready(),
            prefix_of(old(sink).accepted(), final(sink).accepted()),
            match r {
                Err(CaptureError::Failed(m)) => {
                    &&& m@ == "failed to spawn "@ + lossy_text(request@.command.executable) + ": "@ + error@
                    &&& appended(old(sink).accepted(), final(sink).accepted(), opening_gaps(request@))
                },
                Err(CaptureError::ObservationSink(se)) => recording_failure(se, final(sink).accepted().len()),
                _ => false,
            },
    {
        Self::record_gaps(sink, request)?;
        let mut m = string_of("failed to spawn ");
        let exe = request.command().executable().to_string_lossy();
        push_str(&mut m, exe.as_str());
        push_str(&mut m, ": ");
        push_str(&mut m, error);
        Err(CaptureError::Failed(m))
    }

    /// The child started with operating-system process id `os_pid`: records its start, then
    /// the opening gaps.
    pub fn started<K: ObservationSink>(
        sink: &mut K,
        request: &CaptureRequest,
        process_id: ProcessInstanceId,
        os_pid: u32,
        observed_at: ObservationTime,
    ) -> (r: Result<(), CaptureError>)
        requires
            old(sink).ready(),
        ensures
            final(sink).ready(),
            prefix_of(old(sink).accepted(), final(sink).accepted()),
            r is Ok ==> appended(
                old(sink).accepted(),
                final(sink).accepted(),
                seq![
                    RuntimeObservationView {
                        source: root_source(),
                        observed_at: observed_at@,
                        kind: RuntimeKindView::ProcessStarted(ProcessStartedView {
                            process_id: process_id@,
                            parent_process_id: None,
                            operating_system_pid: Some(os_pid),
                            command: request@.command,
                            workspace_state: request@.initial_workspace,
                        }),
                    },
                ] + opening_gaps(request@),
            ),
            r matches Err(e) ==> e matches CaptureError::ObservationSink(se) && recording_failure(se, final(sink).accepted().len()),
    {
        let ghost start = sink.accepted();
        let observation = RuntimeObservation::new(
            Self::process_source(),
            observed_at,
            RuntimeObservationKind::ProcessStarted(
                ProcessStarted {
                    process_id,
                    parent_process_id: None,
                    operating_system_pid: Some(os_pid),
                    command: request.command().duplicate(),
                    workspace_state: duplicate_state_option(request.initial_workspace()),
                },
            ),
        );
        let ghost first = observation@;
        match sink.record(observation) {
            Ok(()) => {},
            Err(e) => return Err(CaptureError::ObservationSink(e)),
        }
        let ghost middle = sink.accepted();
        match Self::record_gaps(sink, request) {
            Ok(()) => {},
            Err(e) => {
                assert(sink.accepted().subrange(0, start.len() as int) =~= start);
                return Err(e);
            },
        }
        proof {
            let after = sink.accepted();
            assert(after.subrange(0, middle.len() as int) == middle);
            assert(after.subrange(0, start.len() as int) =~= start);
            let added = seq![first] + opening_gaps(request@);
            assert forall|i: int| 0 <= i < added.len() implies #[trigger] after[start.len() + i].observation
                == ObservationView::Runtime(added[i]) by {
                if i == 0 {
                    assert(after[start.len() + i] == middle.last());
                } else {
                    assert(after[middle.len() + (i - 1)] == after[start.len() + i]);
                }
            }
        }
        Ok(())
    }

    /// How a process ended, from its exit code or else the signal that ended it.
    pub fn termination(code: Option<i32>, signal: Option<i32>) -> (r: ProcessTermination)
        ensures
            r == termination_of(code, signal),
    {
        match code {
            Some(c) => ProcessTermination::ExitCode(c),
            None => match signal {
                Some(s) => ProcessTermination::Signal(s),
                None => ProcessTermination::Unknown,
            },
        }
    }

    /// The child exited: records its exit and ends the capture, as `Aborted` when it was
    /// cancelled.
    pub fn exited<K: ObservationSink>(
        sink: &mut K,
        request: &CaptureRequest,
        process_id: ProcessInstanceId,
        termination: ProcessTermination,
        cancelled: bool,
        observed_at: ObservationTime,
    ) -> (r: Result<CaptureOutcome, CaptureError>)
        requires
            old(sink).ready(),
        ensures
            final(sink).ready(),
            prefix_of(old(sink).accepted(), final(sink).accepted()),
            r matches Ok(outcome) ==> {
                &&& outcome@ == exit_outcome(request@, cancelled)
                &&& appended(
                    old(sink).accepted(),
                    final(sink).accepted(),
                    seq![
                        RuntimeObservationView {
                            source: root_source(),
                            observed_at: observed_at@,
                            kind: RuntimeKindView::ProcessExited(ProcessExitedView { process_id: process_id@, termination }),
                        },
                    ],
                )
            },
            r matches Err(e) ==> e matches CaptureError::ObservationSink(se) && recording_failure(se, final(sink).accepted().len()),
    {
        let ghost start = sink.accepted();
        let observation = RuntimeObservation::new(
            Self::process_source(),
            observed_at,
            RuntimeObservationKind::ProcessExited(ProcessExited { process_id, termination }),
        );
        match sink.record(observation) {
            Ok(()) => {},
            Err(e) => return Err(CaptureError::ObservationSink(e)),
        }
        proof {
            let after = sink.accepted();
            assert(after.subrange(0, start.len() as int) =~= start);
            assert(after[start.len() + 0int] == after.last());
        }
        if cancelled {
            Ok(CaptureOutcome::new(SessionOutcome::Aborted, None))
        } else {
            Ok(CaptureOutcome::new(SessionOutcome::Completed, duplicate_state_option(request.initial_workspace())))
        }
    }

    /// Waiting for the child failed, after a cancellation's kill or while it ran.
    pub fn wait_failed(after_kill: bool, error: &str) -> (r: CaptureError)
        ensures
            r matches CaptureError::Failed(m) && m@ == (if after_kill {
                "failed to wait after kill: "@
            } else {
                "failed to wait for child: "@
            }) + error@,
    {
        let mut m = if after_kill {
            string_of("failed to wait after kill: ")
        } else {
            string_of("failed to wait for child: ")
        };
        push_str(&mut m, error);
        CaptureError::Failed(m)
    }

    /// The capture refused on platforms other than Linux.
    pub fn unsupported_platform() -> (r: CaptureError)
        ensures
            r matches CaptureError::Unsupported(m) && m@ == "LinuxCaptureAdapter is only supported on Linux (including WSL)"@,
    {
        CaptureError::Unsupported(string_of("LinuxCaptureAdapter is only supported on Linux (including WSL)"))
    }
}

} // verus!
