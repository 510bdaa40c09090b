//! Raw events: what capture sources observed, wrapped in versioned envelopes.

use vstd::prelude::*;
use crate::identity::{EventId, EventSequence, ProcessInstanceId, SessionId, SourceId};
use crate::native::{NativePath, NativeString, NativeStringView, NativeEncoding};
use crate::state::{
    duplicate_state_option, opt_state_view, WorkspaceState, WorkspaceStateView, WorkspaceTransition,
    WorkspaceTransitionView, transition_wf,
};
use crate::time::{ObservationTime, ObservationTimeView, UnixNanos};

verus! {

pub const EVENT_SCHEMA_VERSION: u16 = 1;

// ---------------------------------------------------------------------------
// Types
// ---------------------------------------------------------------------------

#[derive(Clone, Debug, Eq, PartialEq)]
pub struct CommandSpec {
    executable: NativePath,
    arguments: Vec<NativeString>,
    working_directory: NativePath,
}

#[derive(Clone, Copy, Debug, Eq, PartialEq, Hash, Structural)]
pub enum ObservationSourceKind {
    Recorder,
    Process,
    FileSystem,
    Workspace,
    Other,
}

#[derive(Clone, Copy, Debug, Eq, PartialEq)]
pub struct ObservationSource {
    id: SourceId,
    kind: ObservationSourceKind,
}

#[derive(Clone, Debug, Eq, PartialEq)]
pub struct SessionStarted {
    command: CommandSpec,
    initial_workspace: Option<WorkspaceState>,
}

#[derive(Clone, Copy, Debug, Eq, PartialEq, Hash, Structural)]
pub enum SessionOutcome {
    Completed,
    Aborted,
    CaptureFailed,
}

#[derive(Clone, Debug, Eq, PartialEq)]
pub struct SessionEnded {
    outcome: SessionOutcome,
    final_workspace: Option<WorkspaceState>,
}

#[derive(Clone, Debug, Eq, PartialEq)]
pub struct ProcessStarted {
    pub process_id: ProcessInstanceId,
    pub parent_process_id: Option<ProcessInstanceId>,
    pub operating_system_pid: Option<u32>,
    pub command: CommandSpec,
    pub workspace_state: Option<WorkspaceState>,
}

#[derive(Clone, Copy, Debug, Eq, PartialEq, Hash, Structural)]
pub enum ProcessTermination {
    ExitCode(i32),
    Signal(i32),
    Unknown,
}

#[derive(Clone, Debug, Eq, PartialEq)]
pub struct ProcessExited {
    pub process_id: ProcessInstanceId,
    pub termination: ProcessTermination,
}

#[derive(Clone, Debug, Eq, PartialEq)]
pub enum FileMutationKind {
    Created,
    Modified,
    Renamed { from: NativePath },
    Deleted,
}

#[derive(Clone, Debug, Eq, PartialEq)]
pub struct FileMutationObserved {
    pub path: NativePath,
    pub kind: FileMutationKind,
}

#[derive(Clone, Debug, Eq, PartialEq)]
pub struct WorkspaceStateAdvanced {
    pub transition: WorkspaceTransition,
    pub cause_event: Option<EventId>,
}

#[derive(Clone, Copy, Debug, Eq, PartialEq, Hash, Structural)]
pub enum GapScope {
    ProcessTree,
    FileSystem,
    WorkspaceState,
    Output,
    CaptureAdapter,
    Recorder,
}

#[derive(Clone, Copy, Debug, Eq, PartialEq, Hash, Structural)]
pub enum GapReason {
    Unsupported,
    BufferOverflow,
    PermissionDenied,
    ObserverFailed,
    RecorderRestarted,
    Unknown,
}

#[derive(Clone, Debug, Eq, PartialEq)]
pub struct ObservationGap {
    pub scope: GapScope,
    pub reason: GapReason,
    pub detail: String,
}

#[derive(Clone, Debug, Eq, PartialEq)]
pub enum RuntimeObservationKind {
    ProcessStarted(ProcessStarted),
    ProcessExited(ProcessExited),
    FileMutationObserved(FileMutationObserved),
    WorkspaceStateAdvanced(WorkspaceStateAdvanced),
    ObservationGap(ObservationGap),
}

#[derive(Clone, Debug, Eq, PartialEq)]
pub struct RuntimeObservation {
    source: ObservationSource,
    observed_at: ObservationTime,
    kind: RuntimeObservationKind,
}

#[derive(Clone, Debug, Eq, PartialEq)]
pub enum Observation {
    SessionStarted(SessionStarted),
    Runtime(RuntimeObservation),
    SessionEnded(SessionEnded),
}

#[derive(Clone, Debug, Eq, PartialEq)]
pub struct EventEnvelope {
    schema_version: u16,
    event_id: EventId,
    session_id: SessionId,
    sequence: EventSequence,
    recorded_at: UnixNanos,
    observation: Observation,
}

// ---------------------------------------------------------------------------
// Mathematical values
// ---------------------------------------------------------------------------

pub struct CommandSpecView {
    pub executable: NativeStringView,
    pub arguments: Seq<NativeStringView>,
    pub working_directory: NativeStringView,
}

pub struct ObservationSourceView {
    pub id: u128,
    pub kind: ObservationSourceKind,
}

pub struct SessionStartedView {
    pub command: CommandSpecView,
    pub initial_workspace: Option<WorkspaceStateView>,
}

pub struct SessionEndedView {
    pub outcome: SessionOutcome,
    pub final_workspace: Option<WorkspaceStateView>,
}

pub struct ProcessStartedView {
    pub process_id: u128,
    pub parent_process_id: Option<u128>,
    pub operating_system_pid: Option<u32>,
    pub command: CommandSpecView,
    pub workspace_state: Option<WorkspaceStateView>,
}

pub struct ProcessExitedView {
    pub process_id: u128,
    pub termination: ProcessTermination,
}

pub enum FileMutationKindView {
    Created,
    Modified,
    Renamed { from: NativeStringView },
    Deleted,
}

pub struct FileMutationObservedView {
    pub path: NativeStringView,
    pub kind: FileMutationKindView,
}

pub struct WorkspaceStateAdvancedView {
    pub transition: WorkspaceTransitionView,
    pub cause_event: Option<u128>,
}

pub struct ObservationGapView {
    pub scope: GapScope,
    pub reason: GapReason,
    pub detail: Seq<char>,
}

pub enum RuntimeKindView {
    ProcessStarted(ProcessStartedView),
    ProcessExited(ProcessExitedView),
    FileMutationObserved(FileMutationObservedView),
    WorkspaceStateAdvanced(WorkspaceStateAdvancedView),
    ObservationGap(ObservationGapView),
}

pub struct RuntimeObservationView {
    pub source: ObservationSourceView,
    pub observed_at: ObservationTimeView,
    pub kind: RuntimeKindView,
}

pub enum ObservationView {
    SessionStarted(SessionStartedView),
    Runtime(RuntimeObservationView),
    SessionEnded(SessionEndedView),
}

pub struct EnvelopeView {
    pub schema_version: u16,
    pub event_id: u128,
    pub session_id: u128,
    pub sequence: u64,
    pub recorded_at: i64,
    pub observation: ObservationView,
}

pub open spec fn native_views(s: Seq<NativeString>) -> Seq<NativeStringView> {
    s.map_values(|n: NativeString| n@)
}

pub open spec fn opt_pid_view(p: Option<ProcessInstanceId>) -> Option<u128> {
    match p {
        Some(p) => Some(p@),
        None => None,
    }
}

pub open spec fn opt_event_id_view(p: Option<EventId>) -> Option<u128> {
    match p {
        Some(p) => Some(p@),
        None => None,
    }
}

impl View for CommandSpec {
    type V = CommandSpecView;

    closed spec fn view(&self) -> CommandSpecView {
        CommandSpecView {
            executable: self.executable@,
            arguments: native_views(self.arguments@),
            working_directory: self.working_directory@,
        }
    }
}

impl View for ObservationSource {
    type V = ObservationSourceView;

    closed spec fn view(&self) -> ObservationSourceView {
        ObservationSourceView { id: self.id@, kind: self.kind }
    }
}

impl View for SessionStarted {
    type V = SessionStartedView;

    closed spec fn view(&self) -> SessionStartedView {
        SessionStartedView {
            command: self.command@,
            initial_workspace: opt_state_view(self.initial_workspace),
        }
    }
}

impl View for SessionEnded {
    type V = SessionEndedView;

    closed spec fn view(&self) -> SessionEndedView {
        SessionEndedView { outcome: self.outcome, final_workspace: opt_state_view(self.final_workspace) }
    }
}

impl View for ProcessStarted {
    type V = ProcessStartedView;

    open spec fn view(&self) -> ProcessStartedView {
        ProcessStartedView {
            process_id: self.process_id@,
            parent_process_id: opt_pid_view(self.parent_process_id),
            operating_system_pid: self.operating_system_pid,
            command: self.command@,
            workspace_state: opt_state_view(self.workspace_state),
        }
    }
}

impl View for ProcessExited {
    type V = ProcessExitedView;

    open spec fn view(&self) -> ProcessExitedView {
        ProcessExitedView { process_id: self.process_id@, termination: self.termination }
    }
}

impl View for FileMutationKind {
    type V = FileMutationKindView;

    open spec fn view(&self) -> FileMutationKindView {
        match self {
            FileMutationKind::Created => FileMutationKindView::Created,
            FileMutationKind::Modified => FileMutationKindView::Modified,
            FileMutationKind::Renamed { from } => FileMutationKindView::Renamed { from: from@ },
            FileMutationKind::Deleted => FileMutationKindView::Deleted,
        }
    }
}

impl View for FileMutationObserved {
    type V = FileMutationObservedView;

    open spec fn view(&self) -> FileMutationObservedView {
        FileMutationObservedView { path: self.path@, kind: self.kind@ }
    }
}

impl View for WorkspaceStateAdvanced {
    type V = WorkspaceStateAdvancedView;

    open spec fn view(&self) -> WorkspaceStateAdvancedView {
        WorkspaceStateAdvancedView {
            transition: self.transition@,
            cause_event: opt_event_id_view(self.cause_event),
        }
    }
}

impl View for ObservationGap {
    type V = ObservationGapView;

    open spec fn view(&self) -> ObservationGapView {
        ObservationGapView { scope: self.scope, reason: self.reason, detail: self.detail@ }
    }
}

impl View for RuntimeObservationKind {
    type V = RuntimeKindView;

    open spec fn view(&self) -> RuntimeKindView {
        match self {
            RuntimeObservationKind::ProcessStarted(v) => RuntimeKindView::ProcessStarted(v@),
            RuntimeObservationKind::ProcessExited(v) => RuntimeKindView::ProcessExited(v@),
            RuntimeObservationKind::FileMutationObserved(v) => RuntimeKindView::FileMutationObserved(v@),
            RuntimeObservationKind::WorkspaceStateAdvanced(v) => RuntimeKindView::WorkspaceStateAdvanced(v@),
            RuntimeObservationKind::ObservationGap(v) => RuntimeKindView::ObservationGap(v@),
        }
    }
}

impl View for RuntimeObservation {
    type V = RuntimeObservationView;

    closed spec fn view(&self) -> RuntimeObservationView {
        RuntimeObservationView { source: self.source@, observed_at: self.observed_at@, kind: self.kind@ }
    }
}

impl View for Observation {
    type V = ObservationView;

    open spec fn view(&self) -> ObservationView {
        match self {
            Observation::SessionStarted(v) => ObservationView::SessionStarted(v@),
            Observation::Runtime(v) => ObservationView::Runtime(v@),
            Observation::SessionEnded(v) => ObservationView::SessionEnded(v@),
        }
    }
}

impl View for EventEnvelope {
    type V = EnvelopeView;

    closed spec fn view(&self) -> EnvelopeView {
        EnvelopeView {
            schema_version: self.schema_version,
            event_id: self.event_id@,
            session_id: self.session_id@,
            sequence: self.sequence@,
            recorded_at: self.recorded_at@,
            observation: self.observation@,
        }
    }
}

// ---------------------------------------------------------------------------
// Well-formedness: Windows text has whole code units; transitions are adjacent.
// ---------------------------------------------------------------------------

pub open spec fn native_wf(v: NativeStringView) -> bool {
    v.encoding == NativeEncoding::WindowsWtf16LittleEndian ==> v.units.len() % 2 == 0
}

pub open spec fn command_wf(c: CommandSpecView) -> bool {
    &&& native_wf(c.executable)
    &&& native_wf(c.working_directory)
    &&& forall|i: int| 0 <= i < c.arguments.len() ==> #[trigger] native_wf(c.arguments[i])
}

pub open spec fn state_wf(s: WorkspaceStateView) -> bool {
    s.digest matches Some(d) ==> d.bytes.len() == 32
}

pub open spec fn opt_state_wf(s: Option<WorkspaceStateView>) -> bool {
    s matches Some(v) ==> state_wf(v)
}

pub open spec fn runtime_kind_wf(k: RuntimeKindView) -> bool {
    match k {
        RuntimeKindView::ProcessStarted(p) => command_wf(p.command) && opt_state_wf(p.workspace_state),
        RuntimeKindView::FileMutationObserved(f) => native_wf(f.path) && (f.kind matches FileMutationKindView::Renamed { from } ==> native_wf(from)),
        RuntimeKindView::WorkspaceStateAdvanced(w) => transition_wf(w.transition) && state_wf(w.transition.previous)
            && state_wf(w.transition.current),
        _ => true,
    }
}

/// An observation time never knows the monotonic clock without the wall clock.
pub open spec fn time_wf(t: ObservationTimeView) -> bool {
    t.wall_clock is None ==> t.monotonic is None
}

/// The values that the event encoding can carry losslessly.
pub open spec fn observation_wf(o: ObservationView) -> bool {
    match o {
        ObservationView::SessionStarted(s) => command_wf(s.command) && opt_state_wf(s.initial_workspace),
        ObservationView::Runtime(r) => runtime_kind_wf(r.kind) && time_wf(r.observed_at),
        ObservationView::SessionEnded(e) => opt_state_wf(e.final_workspace),
    }
}

// ---------------------------------------------------------------------------
// Operations
// ---------------------------------------------------------------------------

/// Copies a vector of native strings exactly.
pub fn duplicate_native_strings(values: &[NativeString]) -> (r: Vec<NativeString>)
    ensures
        native_views(r@) == native_views(values@),
{
    let mut out: Vec<NativeString> = Vec::new();
    let mut i: usize = 0;
    while i < values.len()
        invariant
            i <= values@.len(),
            out@.len() == i,
            forall|k: int| 0 <= k < i ==> (#[trigger] out@[k])@ == values@[k]@,
        decreases values@.len() - i,
    {
        out.push(values[i].duplicate());
        i = i + 1;
    }
    assert(native_views(out@) =~= native_views(values@));
    out
}

impl CommandSpec {
    pub fn new(executable: NativePath, arguments: Vec<NativeString>, working_directory: NativePath) -> (r: Self)
        ensures
            r@ == (CommandSpecView {
                executable: executable@,
                arguments: native_views(arguments@),
                working_directory: working_directory@,
            }),
    {
        CommandSpec { executable, arguments, working_directory }
    }

    pub fn executable(&self) -> (r: &NativePath)
        ensures
            r@ == self@.executable,
    {
        &self.executable
    }

    pub fn arguments(&self) -> (r: &[NativeString])
        ensures
            native_views(r@) == self@.arguments,
    {
        self.arguments.as_slice()
    }

    pub fn working_directory(&self) -> (r: &NativePath)
        ensures
            r@ == self@.working_directory,
    {
        &self.working_directory
    }

    pub fn duplicate(&self) -> (r: Self)
        ensures
            r@ == self@,
    {
        CommandSpec {
            executable: self.executable.duplicate(),
            arguments: duplicate_native_strings(self.arguments.as_slice()),
            working_directory: self.working_directory.duplicate(),
        }
    }
}

impl ObservationSource {
    pub fn new(id: SourceId, kind: ObservationSourceKind) -> (r: Self)
        ensures
            r@ == (ObservationSourceView { id: id@, kind }),
    {
        ObservationSource { id, kind }
    }

    pub open spec fn spec_recorder() -> ObservationSourceView {
        ObservationSourceView { id: 0, kind: ObservationSourceKind::Recorder }
    }

    /// The recorder itself, as the source of the gaps it reports.
    pub fn recorder() -> (r: Self)
        ensures
            r@ == Self::spec_recorder(),
    {
        ObservationSource { id: SourceId::from_u128(0), kind: ObservationSourceKind::Recorder }
    }

    pub fn id(self) -> (r: SourceId)
        ensures
            r@ == self@.id,
    {
        self.id
    }

    pub fn kind(self) -> (r: ObservationSourceKind)
        ensures
            r == self@.kind,
    {
        self.kind
    }
}

impl SessionStarted {
    pub fn new(command: CommandSpec, initial_workspace: Option<WorkspaceState>) -> (r: Self)
        ensures
            r@ == (SessionStartedView { command: command@, initial_workspace: opt_state_view(initial_workspace) }),
    {
        SessionStarted { command, initial_workspace }
    }

    pub fn command(&self) -> (r: &CommandSpec)
        ensures
            r@ == self@.command,
    {
        &self.command
    }

    pub fn initial_workspace(&self) -> (r: Option<&WorkspaceState>)
        ensures
            r matches Some(s) ==> self@.initial_workspace == Some(s@),
            r is None <==> self@.initial_workspace is None,
    {
        match &self.initial_workspace {
            Some(s) => Some(s),
            None => None,
        }
    }
}

impl SessionEnded {
    pub fn new(outcome: SessionOutcome, final_workspace: Option<WorkspaceState>) -> (r: Self)
        ensures
            r@ == (SessionEndedView { outcome, final_workspace: opt_state_view(final_workspace) }),
    {
        SessionEnded { outcome, final_workspace }
    }

    pub fn outcome(&self) -> (r: SessionOutcome)
        ensures
            r == self@.outcome,
    {
        self.outcome
    }

    pub fn final_workspace(&self) -> (r: Option<&WorkspaceState>)
        ensures
            r matches Some(s) ==> self@.final_workspace == Some(s@),
            r is None <==> self@.final_workspace is None,
    {
        match &self.final_workspace {
            Some(s) => Some(s),
            None => None,
        }
    }
}

impl RuntimeObservation {
    pub fn new(source: ObservationSource, observed_at: ObservationTime, kind: RuntimeObservationKind) -> (r: Self)
        ensures
            r@ == (RuntimeObservationView { source: source@, observed_at: observed_at@, kind: kind@ }),
    {
        RuntimeObservation { source, observed_at, kind }
    }

    /// The value of a gap reported by the recorder itself.
    pub open spec fn spec_recorder_gap(scope: GapScope, reason: GapReason, detail: Seq<char>) -> RuntimeObservationView {
        RuntimeObservationView {
            source: ObservationSource::spec_recorder(),
            observed_at: ObservationTime::spec_unknown(),
            kind: RuntimeKindView::ObservationGap(ObservationGapView { scope, reason, detail }),
        }
    }

    /// A gap reported by the recorder itself, at an unknown time.
    pub fn recorder_gap(scope: GapScope, reason: GapReason, detail: String) -> (r: Self)
        ensures
            r@ == Self::spec_recorder_gap(scope, reason, detail@),
    {
        RuntimeObservation::new(
            ObservationSource::recorder(),
            ObservationTime::unknown(),
            RuntimeObservationKind::ObservationGap(ObservationGap { scope, reason, detail }),
        )
    }

    pub fn source(&self) -> (r: ObservationSource)
        ensures
            r@ == self@.source,
    {
        self.source
    }

    pub fn observed_at(&self) -> (r: ObservationTime)
        ensures
            r@ == self@.observed_at,
    {
        self.observed_at
    }

    pub fn kind(&self) -> (r: &RuntimeObservationKind)
        ensures
            r@ == self@.kind,
    {
        &self.kind
    }
}

impl EventEnvelope {
    pub fn new(
        event_id: EventId,
        session_id: SessionId,
        sequence: EventSequence,
        recorded_at: UnixNanos,
        observation: Observation,
    ) -> (r: Self)
        ensures
            r@ == (EnvelopeView {
                schema_version: EVENT_SCHEMA_VERSION,
                event_id: event_id@,
                session_id: session_id@,
                sequence: sequence@,
                recorded_at: recorded_at@,
                observation: observation@,
            }),
    {
        EventEnvelope { schema_version: EVENT_SCHEMA_VERSION, event_id, session_id, sequence, recorded_at, observation }
    }

    pub fn schema_version(&self) -> (r: u16)
        ensures
            r == self@.schema_version,
    {
        self.schema_version
    }

    pub fn event_id(&self) -> (r: EventId)
        ensures
            r@ == self@.event_id,
    {
        self.event_id
    }

    pub fn session_id(&self) -> (r: SessionId)
        ensures
            r@ == self@.session_id,
    {
        self.session_id
    }

    pub fn sequence(&self) -> (r: EventSequence)
        ensures
            r@ == self@.sequence,
    {
        self.sequence
    }

    pub fn recorded_at(&self) -> (r: UnixNanos)
        ensures
            r@ == self@.recorded_at,
    {
        self.recorded_at
    }

    pub fn observation(&self) -> (r: &Observation)
        ensures
            r@ == self@.observation,
    {
        &self.observation
    }
}

impl SessionStarted {
    pub fn duplicate(&self) -> (r: Self)
        ensures
            r@ == self@,
    {
        SessionStarted {
            command: self.command.duplicate(),
            initial_workspace: duplicate_state_option(self.initial_workspace.as_ref()),
        }
    }
}

impl SessionEnded {
    pub fn duplicate(&self) -> (r: Self)
        ensures
            r@ == self@,
    {
        SessionEnded {
            outcome: self.outcome,
            final_workspace: duplicate_state_option(self.final_workspace.as_ref()),
        }
    }
}

impl FileMutationKind {
    pub fn duplicate(&self) -> (r: Self)
        ensures
            r@ == self@,
    {
        match self {
            FileMutationKind::Created => FileMutationKind::Created,
            FileMutationKind::Modified => FileMutationKind::Modified,
            FileMutationKind::Renamed { from } => FileMutationKind::Renamed { from: from.duplicate() },
            FileMutationKind::Deleted => FileMutationKind::Deleted,
        }
    }
}

impl RuntimeObservationKind {
    pub fn duplicate(&self) -> (r: Self)
        ensures
            r@ == self@,
    {
        match self {
            RuntimeObservationKind::ProcessStarted(p) => RuntimeObservationKind::ProcessStarted(
                ProcessStarted {
                    process_id: p.process_id,
                    parent_process_id: p.parent_process_id,
                    operating_system_pid: p.operating_system_pid,
                    command: p.command.duplicate(),
                    workspace_state: duplicate_state_option(p.workspace_state.as_ref()),
                },
            ),
            RuntimeObservationKind::ProcessExited(p) => RuntimeObservationKind::ProcessExited(
                ProcessExited { process_id: p.process_id, termination: p.termination },
            ),
            RuntimeObservationKind::FileMutationObserved(f) => RuntimeObservationKind::FileMutationObserved(
                FileMutationObserved { path: f.path.duplicate(), kind: f.kind.duplicate() },
            ),
            RuntimeObservationKind::WorkspaceStateAdvanced(w) => RuntimeObservationKind::WorkspaceStateAdvanced(
                WorkspaceStateAdvanced { transition: w.transition.duplicate(), cause_event: w.cause_event },
            ),
            RuntimeObservationKind::ObservationGap(g) => RuntimeObservationKind::ObservationGap(
                ObservationGap { scope: g.scope, reason: g.reason, detail: g.detail.clone() },
            ),
        }
    }
}

impl RuntimeObservation {
    pub fn duplicate(&self) -> (r: Self)
        ensures
            r@ == self@,
    {
        RuntimeObservation { source: self.source, observed_at: self.observed_at, kind: self.kind.duplicate() }
    }
}

impl Observation {
    pub fn duplicate(&self) -> (r: Self)
        ensures
            r@ == self@,
    {
        match self {
            Observation::SessionStarted(v) => Observation::SessionStarted(v.duplicate()),
            Observation::Runtime(v) => Observation::Runtime(v.duplicate()),
            Observation::SessionEnded(v) => Observation::SessionEnded(v.duplicate()),
        }
    }
}

impl EventEnvelope {
    pub fn duplicate(&self) -> (r: Self)
        ensures
            r@ == self@,
    {
        EventEnvelope {
            schema_version: self.schema_version,
            event_id: self.event_id,
            session_id: self.session_id,
            sequence: self.sequence,
            recorded_at: self.recorded_at,
            observation: self.observation.duplicate(),
        }
    }
}

} // verus!
