//! The versioned, lossless encoding of events: plain data records whose byte payloads are
//! Base64 text and whose identifiers are 32-digit hexadecimal text.
//!
//! The records are what the persistent store and the JSON timeline carry; turning them into
//! JSON text happens outside the library.

use base64::Engine;
use vstd::prelude::*;
use crate::event::{
    native_views, CommandSpec, CommandSpecView, FileMutationKind,
    FileMutationKindView, FileMutationObserved, FileMutationObservedView, GapReason, GapScope,
    Observation, ObservationGap, ObservationGapView, ObservationSource, ObservationSourceKind,
    ObservationSourceView, ObservationView, ProcessExited, ProcessStarted, ProcessStartedView,
    ProcessTermination, RuntimeKindView, command_wf, native_wf, observation_wf, runtime_kind_wf, time_wf, RuntimeObservation, RuntimeObservationKind,
    RuntimeObservationView, SessionEnded, SessionEndedView, SessionOutcome, SessionStarted,
    SessionStartedView, WorkspaceStateAdvanced, WorkspaceStateAdvancedView,
};
use crate::native::{le_bytes, le_units, lemma_le_bytes_of_units, NativeEncoding, NativePath, NativeString, NativeStringView};
use crate::store::EventStoreError;
use crate::state::{
    ContentDigest, ContentDigestView, DigestAlgorithm, WorkspaceState, WorkspaceStateView,
    WorkspaceTransition, WorkspaceTransitionView,
};
use crate::text::{hex32, hex32_string, lemma_parse_hex32, parse_hex, parse_hex_u128, push_decimal, push_str, str_equal, string_of};
use crate::time::{MonotonicNanos, ObservationTime, ObservationTimeView, UnixNanos};
use crate::identity::{EventId, ProcessInstanceId, SourceId};
use crate::state::{opt_state_view, transition_wf, WorkspaceGeneration};

verus! {

// ---------------------------------------------------------------------------
// Base64 (the `base64` crate's standard engine, with padding)
// ---------------------------------------------------------------------------

/// What `STANDARD.encode` makes of a byte sequence.
pub uninterp spec fn base64_encode(bytes: Seq<u8>) -> Seq<char>;

/// The bytes `STANDARD.decode` recovers from a text, or `None` when it refuses the text.
pub uninterp spec fn base64_decode(text: Seq<char>) -> Option<Seq<u8>>;

/// `base64::engine::general_purpose::STANDARD.encode`. Decoding the text it makes gives the
/// bytes back.
#[verifier::external_body]
pub(crate) fn encode_base64(bytes: &[u8]) -> (r: String)
    ensures
        r@ == base64_encode(bytes@),
        base64_decode(r@) == Some(bytes@),
{
    base64::engine::general_purpose::STANDARD.encode(bytes)
}

/// `base64::engine::general_purpose::STANDARD.decode`, with the error as its display text;
/// the error text is not described.
#[verifier::external_body]
pub(crate) fn decode_base64(text: &str) -> (r: Result<Vec<u8>, String>)
    ensures
        match r {
            Ok(v) => base64_decode(text@) == Some(v@),
            Err(_) => base64_decode(text@) is None,
        },
{
    match base64::engine::general_purpose::STANDARD.decode(text) {
        Ok(v) => Ok(v),
        Err(e) => Err(e.to_string()),
    }
}

// ---------------------------------------------------------------------------
// Records
// ---------------------------------------------------------------------------

#[derive(Clone, Debug, PartialEq, Eq)]
pub struct NativeStringDto {
    pub encoding: String,
    pub bytes_base64: String,
}

#[derive(Clone, Debug, PartialEq, Eq)]
pub struct CommandSpecDto {
    pub executable: NativeStringDto,
    pub arguments: Vec<NativeStringDto>,
    pub working_directory: NativeStringDto,
}

#[derive(Clone, Debug, PartialEq, Eq)]
pub struct ContentDigestDto {
    pub algorithm: String,
    pub bytes_base64: String,
}

#[derive(Clone, Debug, PartialEq, Eq)]
pub struct WorkspaceStateDto {
    pub generation: u64,
    pub digest: Option<ContentDigestDto>,
}

#[derive(Clone, Debug, PartialEq, Eq)]
pub struct WorkspaceTransitionDto {
    pub previous: WorkspaceStateDto,
    pub current: WorkspaceStateDto,
}

#[derive(Clone, Copy, Debug, PartialEq, Eq, Structural)]
pub struct ObservationTimeDto {
    pub wall_clock: Option<i64>,
    pub monotonic: Option<u64>,
}

#[derive(Clone, Debug, PartialEq, Eq)]
pub struct ObservationSourceDto {
    pub id: String,
    pub kind: String,
}

#[derive(Clone, Debug, PartialEq, Eq)]
pub struct ProcessStartedDto {
    pub process_id: String,
    pub parent_process_id: Option<String>,
    pub operating_system_pid: Option<u32>,
    pub command: CommandSpecDto,
    pub workspace_state: Option<WorkspaceStateDto>,
}

#[derive(Clone, Copy, Debug, PartialEq, Eq, Structural)]
pub enum ProcessTerminationDto {
    ExitCode { code: i32 },
    Signal { signal: i32 },
    Unknown,
}

#[derive(Clone, Debug, PartialEq, Eq)]
pub struct ProcessExitedDto {
    pub process_id: String,
    pub termination: ProcessTerminationDto,
}

#[derive(Clone, Debug, PartialEq, Eq)]
pub enum FileMutationKindDto {
    Created,
    Modified,
    Deleted,
    Renamed { from: NativeStringDto },
}

#[derive(Clone, Debug, PartialEq, Eq)]
pub struct FileMutationObservedDto {
    pub path: NativeStringDto,
    pub kind: FileMutationKindDto,
}

#[derive(Clone, Debug, PartialEq, Eq)]
pub struct WorkspaceStateAdvancedDto {
    pub transition: WorkspaceTransitionDto,
    pub cause_event: Option<String>,
}

#[derive(Clone, Debug, PartialEq, Eq)]
pub struct ObservationGapDto {
    pub scope: String,
    pub reason: String,
    pub detail: String,
}

#[derive(Clone, Debug, PartialEq, Eq)]
pub enum RuntimeObservationKindDto {
    ProcessStarted(ProcessStartedDto),
    ProcessExited(ProcessExitedDto),
    FileMutationObserved(FileMutationObservedDto),
    WorkspaceStateAdvanced(WorkspaceStateAdvancedDto),
    ObservationGap(ObservationGapDto),
}

#[derive(Clone, Debug, PartialEq, Eq)]
pub struct RuntimeObservationDto {
    pub source: ObservationSourceDto,
    pub observed_at: ObservationTimeDto,
    pub kind: RuntimeObservationKindDto,
}

#[derive(Clone, Debug, PartialEq, Eq)]
pub struct SessionStartedDto {
    pub command: CommandSpecDto,
    pub initial_workspace: Option<WorkspaceStateDto>,
}

#[derive(Clone, Debug, PartialEq, Eq)]
pub struct SessionEndedDto {
    pub outcome: String,
    pub final_workspace: Option<WorkspaceStateDto>,
}

#[derive(Clone, Debug, PartialEq, Eq)]
pub enum ObservationDto {
    SessionStarted(SessionStartedDto),
    Runtime(RuntimeObservationDto),
    SessionEnded(SessionEndedDto),
}

// ---------------------------------------------------------------------------
// Mathematical values of the records
// ---------------------------------------------------------------------------

pub struct NativeStringDtoView {
    pub encoding: Seq<char>,
    pub bytes_base64: Seq<char>,
}

pub struct CommandSpecDtoView {
    pub executable: NativeStringDtoView,
    pub arguments: Seq<NativeStringDtoView>,
    pub working_directory: NativeStringDtoView,
}

pub struct ContentDigestDtoView {
    pub algorithm: Seq<char>,
    pub bytes_base64: Seq<char>,
}

pub struct WorkspaceStateDtoView {
    pub generation: u64,
    pub digest: Option<ContentDigestDtoView>,
}

pub struct WorkspaceTransitionDtoView {
    pub previous: WorkspaceStateDtoView,
    pub current: WorkspaceStateDtoView,
}

pub struct ObservationSourceDtoView {
    pub id: Seq<char>,
    pub kind: Seq<char>,
}

pub struct ProcessStartedDtoView {
    pub process_id: Seq<char>,
    pub parent_process_id: Option<Seq<char>>,
    pub operating_system_pid: Option<u32>,
    pub command: CommandSpecDtoView,
    pub workspace_state: Option<WorkspaceStateDtoView>,
}

pub struct ProcessExitedDtoView {
    pub process_id: Seq<char>,
    pub termination: ProcessTerminationDto,
}

pub enum FileMutationKindDtoView {
    Created,
    Modified,
    Deleted,
    Renamed { from: NativeStringDtoView },
}

pub struct FileMutationObservedDtoView {
    pub path: NativeStringDtoView,
    pub kind: FileMutationKindDtoView,
}

pub struct WorkspaceStateAdvancedDtoView {
    pub transition: WorkspaceTransitionDtoView,
    pub cause_event: Option<Seq<char>>,
}

pub struct ObservationGapDtoView {
    pub scope: Seq<char>,
    pub reason: Seq<char>,
    pub detail: Seq<char>,
}

pub enum RuntimeObservationKindDtoView {
    ProcessStarted(ProcessStartedDtoView),
    ProcessExited(ProcessExitedDtoView),
    FileMutationObserved(FileMutationObservedDtoView),
    WorkspaceStateAdvanced(WorkspaceStateAdvancedDtoView),
    ObservationGap(ObservationGapDtoView),
}

pub struct RuntimeObservationDtoView {
    pub source: ObservationSourceDtoView,
    pub observed_at: ObservationTimeDto,
    pub kind: RuntimeObservationKindDtoView,
}

pub struct SessionStartedDtoView {
    pub command: CommandSpecDtoView,
    pub initial_workspace: Option<WorkspaceStateDtoView>,
}

pub struct SessionEndedDtoView {
    pub outcome: Seq<char>,
    pub final_workspace: Option<WorkspaceStateDtoView>,
}

pub enum ObservationDtoView {
    SessionStarted(SessionStartedDtoView),
    Runtime(RuntimeObservationDtoView),
    SessionEnded(SessionEndedDtoView),
}

pub open spec fn opt_text_view(s: Option<String>) -> Option<Seq<char>> {
    match s {
        Some(s) => Some(s@),
        None => None,
    }
}

impl View for NativeStringDto {
    type V = NativeStringDtoView;

    open spec fn view(&self) -> NativeStringDtoView {
        NativeStringDtoView { encoding: self.encoding@, bytes_base64: self.bytes_base64@ }
    }
}

pub open spec fn native_dto_views(s: Seq<NativeStringDto>) -> Seq<NativeStringDtoView> {
    s.map_values(|d: NativeStringDto| d@)
}

impl View for CommandSpecDto {
    type V = CommandSpecDtoView;

    open spec fn view(&self) -> CommandSpecDtoView {
        CommandSpecDtoView {
            executable: self.executable@,
            arguments: native_dto_views(self.arguments@),
            working_directory: self.working_directory@,
        }
    }
}

impl View for ContentDigestDto {
    type V = ContentDigestDtoView;

    open spec fn view(&self) -> ContentDigestDtoView {
        ContentDigestDtoView { algorithm: self.algorithm@, bytes_base64: self.bytes_base64@ }
    }
}

impl View for WorkspaceStateDto {
    type V = WorkspaceStateDtoView;

    open spec fn view(&self) -> WorkspaceStateDtoView {
        WorkspaceStateDtoView {
            generation: self.generation,
            digest: match self.digest {
                Some(d) => Some(d@),
                None => None,
            },
        }
    }
}

pub open spec fn opt_state_dto_view(s: Option<WorkspaceStateDto>) -> Option<WorkspaceStateDtoView> {
    match s {
        Some(s) => Some(s@),
        None => None,
    }
}

impl View for WorkspaceTransitionDto {
    type V = WorkspaceTransitionDtoView;

    open spec fn view(&self) -> WorkspaceTransitionDtoView {
        WorkspaceTransitionDtoView { previous: self.previous@, current: self.current@ }
    }
}

impl View for ObservationSourceDto {
    type V = ObservationSourceDtoView;

    open spec fn view(&self) -> ObservationSourceDtoView {
        ObservationSourceDtoView { id: self.id@, kind: self.kind@ }
    }
}

impl View for ProcessStartedDto {
    type V = ProcessStartedDtoView;

    open spec fn view(&self) -> ProcessStartedDtoView {
        ProcessStartedDtoView {
            process_id: self.process_id@,
            parent_process_id: opt_text_view(self.parent_process_id),
            operating_system_pid: self.operating_system_pid,
            command: self.command@,
            workspace_state: opt_state_dto_view(self.workspace_state),
        }
    }
}

impl View for ProcessExitedDto {
    type V = ProcessExitedDtoView;

    open spec fn view(&self) -> ProcessExitedDtoView {
        ProcessExitedDtoView { process_id: self.process_id@, termination: self.termination }
    }
}

impl View for FileMutationKindDto {
    type V = FileMutationKindDtoView;

    open spec fn view(&self) -> FileMutationKindDtoView {
        match self {
            FileMutationKindDto::Created => FileMutationKindDtoView::Created,
            FileMutationKindDto::Modified => FileMutationKindDtoView::Modified,
            FileMutationKindDto::Deleted => FileMutationKindDtoView::Deleted,
            FileMutationKindDto::Renamed { from } => FileMutationKindDtoView::Renamed { from: from@ },
        }
    }
}

impl View for FileMutationObservedDto {
    type V = FileMutationObservedDtoView;

    open spec fn view(&self) -> FileMutationObservedDtoView {
        FileMutationObservedDtoView { path: self.path@, kind: self.kind@ }
    }
}

impl View for WorkspaceStateAdvancedDto {
    type V = WorkspaceStateAdvancedDtoView;

    open spec fn view(&self) -> WorkspaceStateAdvancedDtoView {
        WorkspaceStateAdvancedDtoView { transition: self.transition@, cause_event: opt_text_view(self.cause_event) }
    }
}

impl View for ObservationGapDto {
    type V = ObservationGapDtoView;

    open spec fn view(&self) -> ObservationGapDtoView {
        ObservationGapDtoView { scope: self.scope@, reason: self.reason@, detail: self.detail@ }
    }
}

impl View for RuntimeObservationKindDto {
    type V = RuntimeObservationKindDtoView;

    open spec fn view(&self) -> RuntimeObservationKindDtoView {
        match self {
            RuntimeObservationKindDto::ProcessStarted(d) => RuntimeObservationKindDtoView::ProcessStarted(d@),
            RuntimeObservationKindDto::ProcessExited(d) => RuntimeObservationKindDtoView::ProcessExited(d@),
            RuntimeObservationKindDto::FileMutationObserved(d) => RuntimeObservationKindDtoView::FileMutationObserved(d@),
            RuntimeObservationKindDto::WorkspaceStateAdvanced(d) => RuntimeObservationKindDtoView::WorkspaceStateAdvanced(d@),
            RuntimeObservationKindDto::ObservationGap(d) => RuntimeObservationKindDtoView::ObservationGap(d@),
        }
    }
}

impl View for RuntimeObservationDto {
    type V = RuntimeObservationDtoView;

    open spec fn view(&self) -> RuntimeObservationDtoView {
        RuntimeObservationDtoView { source: self.source@, observed_at: self.observed_at, kind: self.kind@ }
    }
}

impl View for SessionStartedDto {
    type V = SessionStartedDtoView;

    open spec fn view(&self) -> SessionStartedDtoView {
        SessionStartedDtoView {
            command: self.command@,
            initial_workspace: opt_state_dto_view(self.initial_workspace),
        }
    }
}

impl View for SessionEndedDto {
    type V = SessionEndedDtoView;

    open spec fn view(&self) -> SessionEndedDtoView {
        SessionEndedDtoView { outcome: self.outcome@, final_workspace: opt_state_dto_view(self.final_workspace) }
    }
}

impl View for ObservationDto {
    type V = ObservationDtoView;

    open spec fn view(&self) -> ObservationDtoView {
        match self {
            ObservationDto::SessionStarted(d) => ObservationDtoView::SessionStarted(d@),
            ObservationDto::Runtime(d) => ObservationDtoView::Runtime(d@),
            ObservationDto::SessionEnded(d) => ObservationDtoView::SessionEnded(d@),
        }
    }
}

// ---------------------------------------------------------------------------
// Names of enumeration values
// ---------------------------------------------------------------------------

pub open spec fn encoding_name(e: NativeEncoding) -> Seq<char> {
    match e {
        NativeEncoding::UnixBytes => "UnixBytes"@,
        NativeEncoding::WindowsWtf16LittleEndian => "WindowsWtf16LittleEndian"@,
    }
}

pub open spec fn algorithm_name(a: DigestAlgorithm) -> Seq<char> {
    match a {
        DigestAlgorithm::Blake3 => "Blake3"@,
    }
}

pub open spec fn source_kind_name(k: ObservationSourceKind) -> Seq<char> {
    match k {
        ObservationSourceKind::Recorder => "Recorder"@,
        ObservationSourceKind::Process => "Process"@,
        ObservationSourceKind::FileSystem => "FileSystem"@,
        ObservationSourceKind::Workspace => "Workspace"@,
        ObservationSourceKind::Other => "Other"@,
    }
}

pub open spec fn gap_scope_name(s: GapScope) -> Seq<char> {
    match s {
        GapScope::ProcessTree => "ProcessTree"@,
        GapScope::FileSystem => "FileSystem"@,
        GapScope::WorkspaceState => "WorkspaceState"@,
        GapScope::Output => "Output"@,
        GapScope::CaptureAdapter => "CaptureAdapter"@,
        GapScope::Recorder => "Recorder"@,
    }
}

pub open spec fn gap_reason_name(r: GapReason) -> Seq<char> {
    match r {
        GapReason::Unsupported => "Unsupported"@,
        GapReason::BufferOverflow => "BufferOverflow"@,
        GapReason::PermissionDenied => "PermissionDenied"@,
        GapReason::ObserverFailed => "ObserverFailed"@,
        GapReason::RecorderRestarted => "RecorderRestarted"@,
        GapReason::Unknown => "Unknown"@,
    }
}

pub open spec fn outcome_name(o: SessionOutcome) -> Seq<char> {
    match o {
        SessionOutcome::Completed => "Completed"@,
        SessionOutcome::Aborted => "Aborted"@,
        SessionOutcome::CaptureFailed => "CaptureFailed"@,
    }
}

pub fn encoding_to_str(e: NativeEncoding) -> (r: String)
    ensures
        r@ == encoding_name(e),
{
    match e {
        NativeEncoding::UnixBytes => string_of("UnixBytes"),
        NativeEncoding::WindowsWtf16LittleEndian => string_of("WindowsWtf16LittleEndian"),
    }
}

pub fn source_kind_to_str(kind: ObservationSourceKind) -> (r: String)
    ensures
        r@ == source_kind_name(kind),
{
    match kind {
        ObservationSourceKind::Recorder => string_of("Recorder"),
        ObservationSourceKind::Process => string_of("Process"),
        ObservationSourceKind::FileSystem => string_of("FileSystem"),
        ObservationSourceKind::Workspace => string_of("Workspace"),
        ObservationSourceKind::Other => string_of("Other"),
    }
}

pub fn gap_scope_to_str(scope: GapScope) -> (r: String)
    ensures
        r@ == gap_scope_name(scope),
{
    match scope {
        GapScope::ProcessTree => string_of("ProcessTree"),
        GapScope::FileSystem => string_of("FileSystem"),
        GapScope::WorkspaceState => string_of("WorkspaceState"),
        GapScope::Output => string_of("Output"),
        GapScope::CaptureAdapter => string_of("CaptureAdapter"),
        GapScope::Recorder => string_of("Recorder"),
    }
}

pub fn gap_reason_to_str(reason: GapReason) -> (r: String)
    ensures
        r@ == gap_reason_name(reason),
{
    match reason {
        GapReason::Unsupported => string_of("Unsupported"),
        GapReason::BufferOverflow => string_of("BufferOverflow"),
        GapReason::PermissionDenied => string_of("PermissionDenied"),
        GapReason::ObserverFailed => string_of("ObserverFailed"),
        GapReason::RecorderRestarted => string_of("RecorderRestarted"),
        GapReason::Unknown => string_of("Unknown"),
    }
}

pub fn outcome_to_str(outcome: SessionOutcome) -> (r: String)
    ensures
        r@ == outcome_name(outcome),
{
    match outcome {
        SessionOutcome::Completed => string_of("Completed"),
        SessionOutcome::Aborted => string_of("Aborted"),
        SessionOutcome::CaptureFailed => string_of("CaptureFailed"),
    }
}

// ---------------------------------------------------------------------------
// Encoding: domain values to records
// ---------------------------------------------------------------------------

pub open spec fn native_dto(v: NativeStringView) -> NativeStringDtoView {
    NativeStringDtoView { encoding: encoding_name(v.encoding), bytes_base64: base64_encode(v.units) }
}

pub open spec fn command_dto(c: CommandSpecView) -> CommandSpecDtoView {
    CommandSpecDtoView {
        executable: native_dto(c.executable),
        arguments: c.arguments.map_values(|a: NativeStringView| native_dto(a)),
        working_directory: native_dto(c.working_directory),
    }
}

pub open spec fn digest_dto(d: ContentDigestView) -> ContentDigestDtoView {
    ContentDigestDtoView { algorithm: algorithm_name(d.algorithm), bytes_base64: base64_encode(d.bytes) }
}

pub open spec fn state_dto(s: WorkspaceStateView) -> WorkspaceStateDtoView {
    WorkspaceStateDtoView {
        generation: s.generation,
        digest: match s.digest {
            Some(d) => Some(digest_dto(d)),
            None => None,
        },
    }
}

pub open spec fn opt_state_dto(s: Option<WorkspaceStateView>) -> Option<WorkspaceStateDtoView> {
    match s {
        Some(s) => Some(state_dto(s)),
        None => None,
    }
}

pub open spec fn transition_dto(t: WorkspaceTransitionView) -> WorkspaceTransitionDtoView {
    WorkspaceTransitionDtoView { previous: state_dto(t.previous), current: state_dto(t.current) }
}

pub open spec fn time_dto(t: ObservationTimeView) -> ObservationTimeDto {
    ObservationTimeDto { wall_clock: t.wall_clock, monotonic: t.monotonic }
}

pub open spec fn source_dto(s: ObservationSourceView) -> ObservationSourceDtoView {
    ObservationSourceDtoView { id: hex32(s.id), kind: source_kind_name(s.kind) }
}

pub open spec fn opt_hex32(v: Option<u128>) -> Option<Seq<char>> {
    match v {
        Some(v) => Some(hex32(v)),
        None => None,
    }
}

pub open spec fn termination_dto(t: ProcessTermination) -> ProcessTerminationDto {
    match t {
        ProcessTermination::ExitCode(code) => ProcessTerminationDto::ExitCode { code },
        ProcessTermination::Signal(signal) => ProcessTerminationDto::Signal { signal },
        ProcessTermination::Unknown => ProcessTerminationDto::Unknown,
    }
}

pub open spec fn runtime_kind_dto(k: RuntimeKindView) -> RuntimeObservationKindDtoView {
    match k {
        RuntimeKindView::ProcessStarted(p) => RuntimeObservationKindDtoView::ProcessStarted(ProcessStartedDtoView {
            process_id: hex32(p.process_id),
            parent_process_id: opt_hex32(p.parent_process_id),
            operating_system_pid: p.operating_system_pid,
            command: command_dto(p.command),
            workspace_state: opt_state_dto(p.workspace_state),
        }),
        RuntimeKindView::ProcessExited(p) => RuntimeObservationKindDtoView::ProcessExited(ProcessExitedDtoView {
            process_id: hex32(p.process_id),
            termination: termination_dto(p.termination),
        }),
        RuntimeKindView::FileMutationObserved(f) => RuntimeObservationKindDtoView::FileMutationObserved(
            FileMutationObservedDtoView {
                path: native_dto(f.path),
                kind: match f.kind {
                    FileMutationKindView::Created => FileMutationKindDtoView::Created,
                    FileMutationKindView::Modified => FileMutationKindDtoView::Modified,
                    FileMutationKindView::Deleted => FileMutationKindDtoView::Deleted,
                    FileMutationKindView::Renamed { from } => FileMutationKindDtoView::Renamed { from: native_dto(from) },
                },
            },
        ),
        RuntimeKindView::WorkspaceStateAdvanced(w) => RuntimeObservationKindDtoView::WorkspaceStateAdvanced(
            WorkspaceStateAdvancedDtoView {
                transition: transition_dto(w.transition),
                cause_event: opt_hex32(w.cause_event),
            },
        ),
        RuntimeKindView::ObservationGap(g) => RuntimeObservationKindDtoView::ObservationGap(ObservationGapDtoView {
            scope: gap_scope_name(g.scope),
            reason: gap_reason_name(g.reason),
            detail: g.detail,
        }),
    }
}

/// The record of an observation.
pub open spec fn observation_dto(o: ObservationView) -> ObservationDtoView {
    match o {
        ObservationView::SessionStarted(s) => ObservationDtoView::SessionStarted(SessionStartedDtoView {
            command: command_dto(s.command),
            initial_workspace: opt_state_dto(s.initial_workspace),
        }),
        ObservationView::SessionEnded(e) => ObservationDtoView::SessionEnded(SessionEndedDtoView {
            outcome: outcome_name(e.outcome),
            final_workspace: opt_state_dto(e.final_workspace),
        }),
        ObservationView::Runtime(r) => ObservationDtoView::Runtime(RuntimeObservationDtoView {
            source: source_dto(r.source),
            observed_at: time_dto(r.observed_at),
            kind: runtime_kind_dto(r.kind),
        }),
    }
}

pub fn native_string_to_dto(value: &NativeString) -> (r: NativeStringDto)
    ensures
        r@ == native_dto(value@),
        native_wf(value@) ==> native_of_dto(r@) == Some(value@),
{
    proof {
        lemma_encoding_name_reads_back(value@.encoding);
    }
    NativeStringDto { encoding: encoding_to_str(value.encoding()), bytes_base64: encode_base64(value.units()) }
}

pub fn native_path_to_dto(value: &NativePath) -> (r: NativeStringDto)
    ensures
        r@ == native_dto(value@),
        native_wf(value@) ==> path_of_dto(r@) == Some(value@),
{
    let r = native_string_to_dto(value.as_native_string());
    proof {
        if value@.encoding == NativeEncoding::WindowsWtf16LittleEndian && native_wf(value@) {
            lemma_le_bytes_of_units(value@.units);
        }
    }
    r
}

pub fn command_to_dto(value: &CommandSpec) -> (r: CommandSpecDto)
    ensures
        r@ == command_dto(value@),
        command_wf(value@) ==> command_of_dto(r@) == Some(value@),
{
    let args = value.arguments();
    let mut arguments: Vec<NativeStringDto> = Vec::new();
    let mut i: usize = 0;
    while i < args.len()
        invariant
            i <= args@.len(),
            arguments@.len() == i,
            forall|k: int| 0 <= k < i ==> (#[trigger] arguments@[k])@ == native_dto(args@[k]@),
            forall|k: int| 0 <= k < i ==> native_wf(args@[k]@) ==> native_of_dto((#[trigger] arguments@[k])@) == Some(args@[k]@),
        decreases args@.len() - i,
    {
        arguments.push(native_string_to_dto(&args[i]));
        i = i + 1;
    }
    let ghost arg_views = native_dto_views(arguments@);
    assert(arg_views =~= value@.arguments.map_values(|a: NativeStringView| native_dto(a)));
    let r = CommandSpecDto {
        executable: native_path_to_dto(value.executable()),
        arguments,
        working_directory: native_path_to_dto(value.working_directory()),
    };
    proof {
        if command_wf(value@) {
            let decoded = decoded_arguments(arg_views);
            assert forall|k: int| 0 <= k < decoded.len() implies #[trigger] decoded[k] == Some(value@.arguments[k]) by {
                assert(native_wf(value@.arguments[k]));
                assert(arguments@[k]@ == arg_views[k]);
            }
            assert(all_some(decoded));
            assert(decoded.map_values(|o: Option<NativeStringView>| o->0) =~= value@.arguments);
        }
    }
    r
}

pub fn digest_to_dto(value: &ContentDigest) -> (r: ContentDigestDto)
    ensures
        r@ == digest_dto(value@),
        digest_of_dto(r@) == Some(value@),
{
    proof {
        reveal_strlit("Blake3");
    }
    let algorithm = match value.algorithm() {
        DigestAlgorithm::Blake3 => string_of("Blake3"),
    };
    ContentDigestDto { algorithm, bytes_base64: encode_base64(value.bytes().as_slice()) }
}

pub fn workspace_state_to_dto(value: &WorkspaceState) -> (r: WorkspaceStateDto)
    ensures
        r@ == state_dto(value@),
        state_of_dto(r@) == Some(value@),
{
    let digest = match value.digest() {
        Some(d) => Some(digest_to_dto(d)),
        None => None,
    };
    WorkspaceStateDto { generation: value.generation().value(), digest }
}

fn opt_state_to_dto(value: Option<&WorkspaceState>) -> (r: Option<WorkspaceStateDto>)
    ensures
        opt_state_dto_view(r) == opt_state_dto(match value {
            Some(v) => Some(v@),
            None => None,
        }),
        opt_state_of_dto(opt_state_dto_view(r)) == Some(match value {
            Some(v) => Some(v@),
            None => None,
        }),
{
    match value {
        Some(v) => Some(workspace_state_to_dto(v)),
        None => None,
    }
}

pub fn transition_to_dto(value: &WorkspaceTransition) -> (r: WorkspaceTransitionDto)
    ensures
        r@ == transition_dto(value@),
        transition_wf(value@) ==> transition_of_dto(r@) == Some(value@),
{
    WorkspaceTransitionDto {
        previous: workspace_state_to_dto(value.previous()),
        current: workspace_state_to_dto(value.current()),
    }
}

pub fn observation_time_to_dto(value: ObservationTime) -> (r: ObservationTimeDto)
    ensures
        r == time_dto(value@),
{
    let wall_clock = match value.wall_clock_value() {
        Some(v) => Some(v.value()),
        None => None,
    };
    let monotonic = match value.monotonic_value() {
        Some(v) => Some(v.value()),
        None => None,
    };
    ObservationTimeDto { wall_clock, monotonic }
}

pub fn source_to_dto(value: ObservationSource) -> (r: ObservationSourceDto)
    ensures
        r@ == source_dto(value@),
        source_of_dto(r@) == Some(value@),
{
    proof {
        lemma_parse_hex32(value@.id);
        lemma_source_kind_name_reads_back(value@.kind);
    }
    ObservationSourceDto { id: hex32_string(value.id().as_u128()), kind: source_kind_to_str(value.kind()) }
}

fn runtime_kind_to_dto(kind: &RuntimeObservationKind) -> (r: RuntimeObservationKindDto)
    ensures
        r@ == runtime_kind_dto(kind@),
        runtime_kind_wf(kind@) ==> runtime_kind_of_dto(r@) == Some(kind@),
{
    proof {
        match kind@ {
            RuntimeKindView::ProcessStarted(p) => {
                lemma_parse_hex32(p.process_id);
                if let Some(parent) = p.parent_process_id {
                    lemma_parse_hex32(parent);
                }
            },
            RuntimeKindView::ProcessExited(p) => {
                lemma_parse_hex32(p.process_id);
            },
            RuntimeKindView::WorkspaceStateAdvanced(w) => {
                if let Some(c) = w.cause_event {
                    lemma_parse_hex32(c);
                }
            },
            RuntimeKindView::ObservationGap(g) => {
                lemma_gap_scope_name_reads_back(g.scope);
                lemma_gap_reason_name_reads_back(g.reason);
            },
            _ => {},
        }
    }
    match kind {
        RuntimeObservationKind::ProcessStarted(value) => {
            let parent_process_id = match value.parent_process_id {
                Some(p) => Some(hex32_string(p.as_u128())),
                None => None,
            };
            RuntimeObservationKindDto::ProcessStarted(
                ProcessStartedDto {
                    process_id: hex32_string(value.process_id.as_u128()),
                    parent_process_id,
                    operating_system_pid: value.operating_system_pid,
                    command: command_to_dto(&value.command),
                    workspace_state: opt_state_to_dto(value.workspace_state.as_ref()),
                },
            )
        },
        RuntimeObservationKind::ProcessExited(value) => {
            let termination = match value.termination {
                ProcessTermination::ExitCode(code) => ProcessTerminationDto::ExitCode { code },
                ProcessTermination::Signal(signal) => ProcessTerminationDto::Signal { signal },
                ProcessTermination::Unknown => ProcessTerminationDto::Unknown,
            };
            RuntimeObservationKindDto::ProcessExited(
                ProcessExitedDto { process_id: hex32_string(value.process_id.as_u128()), termination },
            )
        },
        RuntimeObservationKind::FileMutationObserved(value) => {
            let kind = match &value.kind {
                FileMutationKind::Created => FileMutationKindDto::Created,
                FileMutationKind::Modified => FileMutationKindDto::Modified,
                FileMutationKind::Deleted => FileMutationKindDto::Deleted,
                FileMutationKind::Renamed { from } => FileMutationKindDto::Renamed { from: native_path_to_dto(from) },
            };
            RuntimeObservationKindDto::FileMutationObserved(
                FileMutationObservedDto { path: native_path_to_dto(&value.path), kind },
            )
        },
        RuntimeObservationKind::WorkspaceStateAdvanced(value) => {
            let cause_event = match value.cause_event {
                Some(e) => Some(hex32_string(e.as_u128())),
                None => None,
            };
            RuntimeObservationKindDto::WorkspaceStateAdvanced(
                WorkspaceStateAdvancedDto { transition: transition_to_dto(&value.transition), cause_event },
            )
        },
        RuntimeObservationKind::ObservationGap(value) => RuntimeObservationKindDto::ObservationGap(
            ObservationGapDto {
                scope: gap_scope_to_str(value.scope),
                reason: gap_reason_to_str(value.reason),
                detail: value.detail.clone(),
            },
        ),
    }
}

/// The record of an observation.
pub fn observation_to_dto(observation: &Observation) -> (r: ObservationDto)
    ensures
        r@ == observation_dto(observation@),
        observation_wf(observation@) ==> observation_of_dto(r@) == Some(observation@),
{
    proof {
        if let ObservationView::SessionEnded(e) = observation@ {
            lemma_outcome_name_reads_back(e.outcome);
        }
    }
    match observation {
        Observation::SessionStarted(started) => ObservationDto::SessionStarted(
            SessionStartedDto {
                command: command_to_dto(started.command()),
                initial_workspace: opt_state_to_dto(started.initial_workspace()),
            },
        ),
        Observation::SessionEnded(ended) => ObservationDto::SessionEnded(
            SessionEndedDto {
                outcome: outcome_to_str(ended.outcome()),
                final_workspace: opt_state_to_dto(ended.final_workspace()),
            },
        ),
        Observation::Runtime(runtime) => ObservationDto::Runtime(
            RuntimeObservationDto {
                source: source_to_dto(runtime.source()),
                observed_at: observation_time_to_dto(runtime.observed_at()),
                kind: runtime_kind_to_dto(runtime.kind()),
            },
        ),
    }
}

// ---------------------------------------------------------------------------
// Decoding: records to domain values
// ---------------------------------------------------------------------------

pub open spec fn encoding_of(t: Seq<char>) -> Option<NativeEncoding> {
    if t == "UnixBytes"@ {
        Some(NativeEncoding::UnixBytes)
    } else if t == "WindowsWtf16LittleEndian"@ {
        Some(NativeEncoding::WindowsWtf16LittleEndian)
    } else {
        None
    }
}

pub open spec fn source_kind_of(t: Seq<char>) -> Option<ObservationSourceKind> {
    if t == "Recorder"@ {
        Some(ObservationSourceKind::Recorder)
    } else if t == "Process"@ {
        Some(ObservationSourceKind::Process)
    } else if t == "FileSystem"@ {
        Some(ObservationSourceKind::FileSystem)
    } else if t == "Workspace"@ {
        Some(ObservationSourceKind::Workspace)
    } else if t == "Other"@ {
        Some(ObservationSourceKind::Other)
    } else {
        None
    }
}

pub open spec fn gap_scope_of(t: Seq<char>) -> Option<GapScope> {
    if t == "ProcessTree"@ {
        Some(GapScope::ProcessTree)
    } else if t == "FileSystem"@ {
        Some(GapScope::FileSystem)
    } else if t == "WorkspaceState"@ {
        Some(GapScope::WorkspaceState)
    } else if t == "Output"@ {
        Some(GapScope::Output)
    } else if t == "CaptureAdapter"@ {
        Some(GapScope::CaptureAdapter)
    } else if t == "Recorder"@ {
        Some(GapScope::Recorder)
    } else {
        None
    }
}

pub open spec fn gap_reason_of(t: Seq<char>) -> Option<GapReason> {
    if t == "Unsupported"@ {
        Some(GapReason::Unsupported)
    } else if t == "BufferOverflow"@ {
        Some(GapReason::BufferOverflow)
    } else if t == "PermissionDenied"@ {
        Some(GapReason::PermissionDenied)
    } else if t == "ObserverFailed"@ {
        Some(GapReason::ObserverFailed)
    } else if t == "RecorderRestarted"@ {
        Some(GapReason::RecorderRestarted)
    } else if t == "Unknown"@ {
        Some(GapReason::Unknown)
    } else {
        None
    }
}

pub open spec fn outcome_of(t: Seq<char>) -> Option<SessionOutcome> {
    if t == "Completed"@ {
        Some(SessionOutcome::Completed)
    } else if t == "Aborted"@ {
        Some(SessionOutcome::Aborted)
    } else if t == "CaptureFailed"@ {
        Some(SessionOutcome::CaptureFailed)
    } else {
        None
    }
}

/// Each encoding name reads back as the encoding it names.
pub proof fn lemma_encoding_name_reads_back(e: NativeEncoding)
    ensures
        encoding_of(encoding_name(e)) == Some(e),
{
    reveal_strlit("UnixBytes");
    reveal_strlit("WindowsWtf16LittleEndian");
    match e {
        NativeEncoding::UnixBytes => {
        },
        NativeEncoding::WindowsWtf16LittleEndian => {
            assert("WindowsWtf16LittleEndian"@.len() != "UnixBytes"@.len());
        },
    }
}

/// Each source-kind name reads back as the kind it names.
pub proof fn lemma_source_kind_name_reads_back(k: ObservationSourceKind)
    ensures
        source_kind_of(source_kind_name(k)) == Some(k),
{
    reveal_strlit("Recorder");
    reveal_strlit("Process");
    reveal_strlit("FileSystem");
    reveal_strlit("Workspace");
    reveal_strlit("Other");
    match k {
        ObservationSourceKind::Recorder => {
        },
        ObservationSourceKind::Process => {
            assert("Process"@.len() != "Recorder"@.len());
        },
        ObservationSourceKind::FileSystem => {
            assert("FileSystem"@.len() != "Recorder"@.len());
            assert("FileSystem"@.len() != "Process"@.len());
        },
        ObservationSourceKind::Workspace => {
            assert("Workspace"@.len() != "Recorder"@.len());
            assert("Workspace"@.len() != "Process"@.len());
            assert("Workspace"@.len() != "FileSystem"@.len());
        },
        ObservationSourceKind::Other => {
            assert("Other"@.len() != "Recorder"@.len());
            assert("Other"@.len() != "Process"@.len());
            assert("Other"@.len() != "FileSystem"@.len());
            assert("Other"@.len() != "Workspace"@.len());
        },
    }
}

/// Each gap-scope name reads back as the scope it names.
pub proof fn lemma_gap_scope_name_reads_back(g: GapScope)
    ensures
        gap_scope_of(gap_scope_name(g)) == Some(g),
{
    reveal_strlit("ProcessTree");
    reveal_strlit("FileSystem");
    reveal_strlit("WorkspaceState");
    reveal_strlit("Output");
    reveal_strlit("CaptureAdapter");
    reveal_strlit("Recorder");
    match g {
        GapScope::ProcessTree => {
        },
        GapScope::FileSystem => {
            assert("FileSystem"@.len() != "ProcessTree"@.len());
        },
        GapScope::WorkspaceState => {
            assert("WorkspaceState"@.len() != "ProcessTree"@.len());
            assert("WorkspaceState"@.len() != "FileSystem"@.len());
        },
        GapScope::Output => {
            assert("Output"@.len() != "ProcessTree"@.len());
            assert("Output"@.len() != "FileSystem"@.len());
            assert("Output"@.len() != "WorkspaceState"@.len());
        },
        GapScope::CaptureAdapter => {
            assert("CaptureAdapter"@.len() != "ProcessTree"@.len());
            assert("CaptureAdapter"@.len() != "FileSystem"@.len());
            assert("CaptureAdapter"@[0] != "WorkspaceState"@[0]);
            assert("CaptureAdapter"@.len() != "Output"@.len());
        },
        GapScope::Recorder => {
            assert("Recorder"@.len() != "ProcessTree"@.len());
            assert("Recorder"@.len() != "FileSystem"@.len());
            assert("Recorder"@.len() != "WorkspaceState"@.len());
            assert("Recorder"@.len() != "Output"@.len());
            assert("Recorder"@.len() != "CaptureAdapter"@.len());
        },
    }
}

/// Each gap-reason name reads back as the reason it names.
pub proof fn lemma_gap_reason_name_reads_back(g: GapReason)
    ensures
        gap_reason_of(gap_reason_name(g)) == Some(g),
{
    reveal_strlit("Unsupported");
    reveal_strlit("BufferOverflow");
    reveal_strlit("PermissionDenied");
    reveal_strlit("ObserverFailed");
    reveal_strlit("RecorderRestarted");
    reveal_strlit("Unknown");
    match g {
        GapReason::Unsupported => {
        },
        GapReason::BufferOverflow => {
            assert("BufferOverflow"@.len() != "Unsupported"@.len());
        },
        GapReason::PermissionDenied => {
            assert("PermissionDenied"@.len() != "Unsupported"@.len());
            assert("PermissionDenied"@.len() != "BufferOverflow"@.len());
        },
        GapReason::ObserverFailed => {
            assert("ObserverFailed"@.len() != "Unsupported"@.len());
            assert("ObserverFailed"@[0] != "BufferOverflow"@[0]);
            assert("ObserverFailed"@.len() != "PermissionDenied"@.len());
        },
        GapReason::RecorderRestarted => {
            assert("RecorderRestarted"@.len() != "Unsupported"@.len());
            assert("RecorderRestarted"@.len() != "BufferOverflow"@.len());
            assert("RecorderRestarted"@.len() != "PermissionDenied"@.len());
            assert("RecorderRestarted"@.len() != "ObserverFailed"@.len());
        },
        GapReason::Unknown => {
            assert("Unknown"@.len() != "Unsupported"@.len());
            assert("Unknown"@.len() != "BufferOverflow"@.len());
            assert("Unknown"@.len() != "PermissionDenied"@.len());
            assert("Unknown"@.len() != "ObserverFailed"@.len());
            assert("Unknown"@.len() != "RecorderRestarted"@.len());
        },
    }
}

/// Each outcome name reads back as the outcome it names.
pub proof fn lemma_outcome_name_reads_back(o: SessionOutcome)
    ensures
        outcome_of(outcome_name(o)) == Some(o),
{
    reveal_strlit("Completed");
    reveal_strlit("Aborted");
    reveal_strlit("CaptureFailed");
    match o {
        SessionOutcome::Completed => {
        },
        SessionOutcome::Aborted => {
            assert("Aborted"@.len() != "Completed"@.len());
        },
        SessionOutcome::CaptureFailed => {
            assert("CaptureFailed"@.len() != "Completed"@.len());
            assert("CaptureFailed"@.len() != "Aborted"@.len());
        },
    }
}

/// Each name reads back as the value it names.
pub proof fn lemma_names_read_back()
    ensures
        forall|e: NativeEncoding| encoding_of(#[trigger] encoding_name(e)) == Some(e),
        forall|k: ObservationSourceKind| source_kind_of(#[trigger] source_kind_name(k)) == Some(k),
        forall|g: GapScope| gap_scope_of(#[trigger] gap_scope_name(g)) == Some(g),
        forall|g: GapReason| gap_reason_of(#[trigger] gap_reason_name(g)) == Some(g),
        forall|o: SessionOutcome| outcome_of(#[trigger] outcome_name(o)) == Some(o),
{
    assert forall|e: NativeEncoding| encoding_of(#[trigger] encoding_name(e)) == Some(e) by {
        lemma_encoding_name_reads_back(e);
    }
    assert forall|k: ObservationSourceKind| source_kind_of(#[trigger] source_kind_name(k)) == Some(k) by {
        lemma_source_kind_name_reads_back(k);
    }
    assert forall|g: GapScope| gap_scope_of(#[trigger] gap_scope_name(g)) == Some(g) by {
        lemma_gap_scope_name_reads_back(g);
    }
    assert forall|g: GapReason| gap_reason_of(#[trigger] gap_reason_name(g)) == Some(g) by {
        lemma_gap_reason_name_reads_back(g);
    }
    assert forall|o: SessionOutcome| outcome_of(#[trigger] outcome_name(o)) == Some(o) by {
        lemma_outcome_name_reads_back(o);
    }
}

pub open spec fn native_of_dto(d: NativeStringDtoView) -> Option<NativeStringView> {
    match base64_decode(d.bytes_base64) {
        Some(b) => match encoding_of(d.encoding) {
            Some(NativeEncoding::UnixBytes) => Some(NativeStringView { encoding: NativeEncoding::UnixBytes, units: b }),
            Some(NativeEncoding::WindowsWtf16LittleEndian) => if b.len() % 2 == 0 {
                Some(NativeStringView { encoding: NativeEncoding::WindowsWtf16LittleEndian, units: b })
            } else {
                None
            },
            None => None,
        },
        None => None,
    }
}

/// A path record's value: Windows paths are rebuilt from their WTF-16 code units.
pub open spec fn path_of_dto(d: NativeStringDtoView) -> Option<NativeStringView> {
    match native_of_dto(d) {
        Some(v) => match v.encoding {
            NativeEncoding::UnixBytes => Some(v),
            NativeEncoding::WindowsWtf16LittleEndian => Some(NativeStringView {
                encoding: NativeEncoding::WindowsWtf16LittleEndian,
                units: le_bytes(le_units(v.units)),
            }),
        },
        None => None,
    }
}

pub open spec fn all_some<T>(s: Seq<Option<T>>) -> bool {
    forall|i: int| 0 <= i < s.len() ==> (#[trigger] s[i]) is Some
}

/// Each argument record decoded on its own.
pub open spec fn decoded_arguments(args: Seq<NativeStringDtoView>) -> Seq<Option<NativeStringView>> {
    args.map_values(|a: NativeStringDtoView| native_of_dto(a))
}

pub open spec fn arguments_of_dto(args: Seq<NativeStringDtoView>) -> Option<Seq<NativeStringView>> {
    let decoded = decoded_arguments(args);
    if all_some(decoded) {
        Some(decoded.map_values(|o: Option<NativeStringView>| o->0))
    } else {
        None
    }
}

pub open spec fn command_of_dto(d: CommandSpecDtoView) -> Option<CommandSpecView> {
    match (path_of_dto(d.executable), arguments_of_dto(d.arguments), path_of_dto(d.working_directory)) {
        (Some(e), Some(a), Some(w)) => Some(CommandSpecView { executable: e, arguments: a, working_directory: w }),
        _ => None,
    }
}

pub open spec fn digest_of_dto(d: ContentDigestDtoView) -> Option<ContentDigestView> {
    match base64_decode(d.bytes_base64) {
        Some(b) => if b.len() == 32 && d.algorithm == "Blake3"@ {
            Some(ContentDigestView { algorithm: DigestAlgorithm::Blake3, bytes: b })
        } else {
            None
        },
        None => None,
    }
}

pub open spec fn state_of_dto(d: WorkspaceStateDtoView) -> Option<WorkspaceStateView> {
    match d.digest {
        Some(g) => match digest_of_dto(g) {
            Some(v) => Some(WorkspaceStateView { generation: d.generation, digest: Some(v) }),
            None => None,
        },
        None => Some(WorkspaceStateView { generation: d.generation, digest: None }),
    }
}

/// Decoding an optional state: `Some(None)` for an absent state, `None` when invalid.
pub open spec fn opt_state_of_dto(d: Option<WorkspaceStateDtoView>) -> Option<Option<WorkspaceStateView>> {
    match d {
        Some(s) => match state_of_dto(s) {
            Some(v) => Some(Some(v)),
            None => None,
        },
        None => Some(None),
    }
}

pub open spec fn transition_of_dto(d: WorkspaceTransitionDtoView) -> Option<WorkspaceTransitionView> {
    match (state_of_dto(d.previous), state_of_dto(d.current)) {
        (Some(p), Some(c)) => if c.generation == p.generation + 1 {
            Some(WorkspaceTransitionView { previous: p, current: c })
        } else {
            None
        },
        _ => None,
    }
}

pub open spec fn time_of_dto(d: ObservationTimeDto) -> ObservationTimeView {
    match (d.wall_clock, d.monotonic) {
        (Some(w), Some(m)) => ObservationTimeView { wall_clock: Some(w), monotonic: Some(m) },
        (Some(w), None) => ObservationTimeView { wall_clock: Some(w), monotonic: None },
        (None, _) => ObservationTimeView { wall_clock: None, monotonic: None },
    }
}

pub open spec fn source_of_dto(d: ObservationSourceDtoView) -> Option<ObservationSourceView> {
    match (parse_hex(d.id), source_kind_of(d.kind)) {
        (Some(id), Some(kind)) => Some(ObservationSourceView { id, kind }),
        _ => None,
    }
}

/// Decoding an optional identifier: `Some(None)` when absent, `None` when invalid.
pub open spec fn opt_id_of_text(t: Option<Seq<char>>) -> Option<Option<u128>> {
    match t {
        Some(t) => match parse_hex(t) {
            Some(v) => Some(Some(v)),
            None => None,
        },
        None => Some(None),
    }
}

pub open spec fn termination_of_dto(d: ProcessTerminationDto) -> ProcessTermination {
    match d {
        ProcessTerminationDto::ExitCode { code } => ProcessTermination::ExitCode(code),
        ProcessTerminationDto::Signal { signal } => ProcessTermination::Signal(signal),
        ProcessTerminationDto::Unknown => ProcessTermination::Unknown,
    }
}

pub open spec fn runtime_kind_of_dto(d: RuntimeObservationKindDtoView) -> Option<RuntimeKindView> {
    match d {
        RuntimeObservationKindDtoView::ProcessStarted(p) => match (
            parse_hex(p.process_id),
            opt_id_of_text(p.parent_process_id),
            command_of_dto(p.command),
            opt_state_of_dto(p.workspace_state),
        ) {
            (Some(id), Some(parent), Some(command), Some(state)) => Some(RuntimeKindView::ProcessStarted(ProcessStartedView {
                process_id: id,
                parent_process_id: parent,
                operating_system_pid: p.operating_system_pid,
                command,
                workspace_state: state,
            })),
            _ => None,
        },
        RuntimeObservationKindDtoView::ProcessExited(p) => match parse_hex(p.process_id) {
            Some(id) => Some(RuntimeKindView::ProcessExited(crate::event::ProcessExitedView {
                process_id: id,
                termination: termination_of_dto(p.termination),
            })),
            None => None,
        },
        RuntimeObservationKindDtoView::FileMutationObserved(f) => match path_of_dto(f.path) {
            Some(path) => match f.kind {
                FileMutationKindDtoView::Created => Some(RuntimeKindView::FileMutationObserved(FileMutationObservedView {
                    path,
                    kind: FileMutationKindView::Created,
                })),
                FileMutationKindDtoView::Modified => Some(RuntimeKindView::FileMutationObserved(FileMutationObservedView {
                    path,
                    kind: FileMutationKindView::Modified,
                })),
                FileMutationKindDtoView::Deleted => Some(RuntimeKindView::FileMutationObserved(FileMutationObservedView {
                    path,
                    kind: FileMutationKindView::Deleted,
                })),
                FileMutationKindDtoView::Renamed { from } => match path_of_dto(from) {
                    Some(from) => Some(RuntimeKindView::FileMutationObserved(FileMutationObservedView {
                        path,
                        kind: FileMutationKindView::Renamed { from },
                    })),
                    None => None,
                },
            },
            None => None,
        },
        RuntimeObservationKindDtoView::WorkspaceStateAdvanced(w) => match (
            transition_of_dto(w.transition),
            opt_id_of_text(w.cause_event),
        ) {
            (Some(t), Some(c)) => Some(RuntimeKindView::WorkspaceStateAdvanced(WorkspaceStateAdvancedView {
                transition: t,
                cause_event: c,
            })),
            _ => None,
        },
        RuntimeObservationKindDtoView::ObservationGap(g) => match (gap_scope_of(g.scope), gap_reason_of(g.reason)) {
            (Some(scope), Some(reason)) => Some(RuntimeKindView::ObservationGap(ObservationGapView {
                scope,
                reason,
                detail: g.detail,
            })),
            _ => None,
        },
    }
}

/// The observation a record holds, or `None` when the record is invalid.
pub open spec fn observation_of_dto(d: ObservationDtoView) -> Option<ObservationView> {
    match d {
        ObservationDtoView::SessionStarted(s) => match (command_of_dto(s.command), opt_state_of_dto(s.initial_workspace)) {
            (Some(c), Some(w)) => Some(ObservationView::SessionStarted(SessionStartedView {
                command: c,
                initial_workspace: w,
            })),
            _ => None,
        },
        ObservationDtoView::SessionEnded(e) => match (outcome_of(e.outcome), opt_state_of_dto(e.final_workspace)) {
            (Some(o), Some(w)) => Some(ObservationView::SessionEnded(SessionEndedView { outcome: o, final_workspace: w })),
            _ => None,
        },
        ObservationDtoView::Runtime(r) => match (source_of_dto(r.source), runtime_kind_of_dto(r.kind)) {
            (Some(source), Some(kind)) => Some(ObservationView::Runtime(RuntimeObservationView {
                source,
                observed_at: time_of_dto(r.observed_at),
                kind,
            })),
            _ => None,
        },
    }
}

fn corrupt(prefix: &str, detail: &str) -> (r: EventStoreError)
    ensures
        r matches EventStoreError::Corrupt(m) && m@ == prefix@ + detail@,
{
    let mut s = string_of(prefix);
    push_str(&mut s, detail);
    EventStoreError::Corrupt(s)
}

/// Parses a 32-digit hexadecimal identifier field.
pub fn parse_hex_field(text: &str, field: &str) -> (r: Result<u128, EventStoreError>)
    ensures
        match parse_hex(text@) {
            Some(v) => r == Ok::<u128, EventStoreError>(v),
            None => r matches Err(EventStoreError::Corrupt(m)) && m@ == "invalid "@ + field@ + ": "@ + text@,
        },
{
    match parse_hex_u128(text) {
        Some(v) => Ok(v),
        None => {
            let mut s = string_of("invalid ");
            push_str(&mut s, field);
            push_str(&mut s, ": ");
            push_str(&mut s, text);
            Err(EventStoreError::Corrupt(s))
        },
    }
}

pub fn dto_to_native_string(dto: &NativeStringDto) -> (r: Result<NativeString, EventStoreError>)
    ensures
        match native_of_dto(dto@) {
            Some(v) => r matches Ok(s) && s@ == v,
            None => r matches Err(e) && e is Corrupt,
        },
{
    let bytes = match decode_base64(dto.bytes_base64.as_str()) {
        Ok(b) => b,
        Err(e) => return Err(corrupt("base64 decode failed: ", e.as_str())),
    };
    if str_equal(dto.encoding.as_str(), "UnixBytes") {
        Ok(NativeString::from_unix_bytes(bytes))
    } else if str_equal(dto.encoding.as_str(), "WindowsWtf16LittleEndian") {
        match NativeString::from_windows_wtf16_bytes(bytes) {
            Ok(s) => Ok(s),
            Err(e) => {
                let m = e.message();
                Err(EventStoreError::Corrupt(m))
            },
        }
    } else {
        Err(corrupt("unknown NativeEncoding ", dto.encoding.as_str()))
    }
}

pub fn dto_to_native_path(dto: &NativeStringDto) -> (r: Result<NativePath, EventStoreError>)
    ensures
        match path_of_dto(dto@) {
            Some(v) => r matches Ok(s) && s@ == v,
            None => r matches Err(e) && e is Corrupt,
        },
{
    let native = dto_to_native_string(dto)?;
    match native.encoding() {
        NativeEncoding::UnixBytes => Ok(NativePath::from_unix_bytes(crate::native::copy_bytes(native.units()))),
        NativeEncoding::WindowsWtf16LittleEndian => {
            let bytes = native.units();
            if bytes.len() % 2 != 0 {
                return Err(corrupt("odd Windows byte length for NativePath", ""));
            }
            let mut units: Vec<u16> = Vec::new();
            let mut i: usize = 0;
            let n = bytes.len() / 2;
            while i < n
                invariant
                    n == bytes@.len() / 2,
                    2 * n <= bytes@.len(),
                    bytes@.len() <= usize::MAX,
                    i <= n,
                    units@ =~= le_units(bytes@).subrange(0, i as int),
                decreases n - i,
            {
                assert(2 * i + 1 < bytes@.len());
                let lo = bytes[2 * i];
                let hi = bytes[2 * i + 1];
                units.push(((lo as u16) | ((hi as u16) << 8u16)) as u16);
                i = i + 1;
                assert(units@ =~= le_units(bytes@).subrange(0, i as int));
            }
            assert(units@ =~= le_units(bytes@));
            Ok(NativePath::from_windows_wtf16(units.as_slice()))
        },
    }
}


pub fn dto_to_command(dto: &CommandSpecDto) -> (r: Result<CommandSpec, EventStoreError>)
    ensures
        match command_of_dto(dto@) {
            Some(v) => r matches Ok(c) && c@ == v,
            None => r matches Err(e) && e is Corrupt,
        },
{
    let executable = dto_to_native_path(&dto.executable)?;
    let arg_dtos = &dto.arguments;
    let ghost decoded = decoded_arguments(native_dto_views(arg_dtos@));
    let mut arguments: Vec<NativeString> = Vec::new();
    let mut i: usize = 0;
    while i < arg_dtos.len()
        invariant
            i <= arg_dtos@.len(),
            arguments@.len() == i,
            decoded == decoded_arguments(native_dto_views(arg_dtos@)),
            dto@.arguments == native_dto_views(arg_dtos@),
            forall|k: int| 0 <= k < i ==> decoded[k] == Some((#[trigger] arguments@[k])@),
        decreases arg_dtos@.len() - i,
    {
        match dto_to_native_string(&arg_dtos[i]) {
            Ok(a) => arguments.push(a),
            Err(e) => {
                assert(decoded[i as int] is None);
                assert(!all_some(decoded));
                return Err(e);
            },
        }
        i = i + 1;
    }
    assert forall|k: int| 0 <= k < decoded.len() implies (#[trigger] decoded[k]) is Some by {
        assert(decoded[k] == Some(arguments@[k]@));
    }
    assert(all_some(decoded));
    assert(decoded.map_values(|o: Option<NativeStringView>| o->0) =~= native_views(arguments@));
    let working_directory = dto_to_native_path(&dto.working_directory)?;
    Ok(CommandSpec::new(executable, arguments, working_directory))
}

pub fn dto_to_digest(dto: &ContentDigestDto) -> (r: Result<ContentDigest, EventStoreError>)
    ensures
        match digest_of_dto(dto@) {
            Some(v) => r matches Ok(d) && d@ == v,
            None => r matches Err(e) && e is Corrupt,
        },
{
    let bytes_vec = match decode_base64(dto.bytes_base64.as_str()) {
        Ok(b) => b,
        Err(e) => return Err(corrupt("base64 decode failed: ", e.as_str())),
    };
    if bytes_vec.len() != 32 {
        let mut s = string_of("ContentDigest must be 32 bytes; got ");
        push_decimal(&mut s, bytes_vec.len() as u128);
        return Err(EventStoreError::Corrupt(s));
    }
    let mut bytes: [u8; 32] = [0u8; 32];
    let mut i: usize = 0;
    while i < 32
        invariant
            i <= 32,
            bytes_vec@.len() == 32,
            forall|k: int| 0 <= k < i ==> bytes@[k] == bytes_vec@[k],
        decreases 32 - i,
    {
        bytes[i] = bytes_vec[i];
        i = i + 1;
    }
    assert(bytes@ =~= bytes_vec@);
    if str_equal(dto.algorithm.as_str(), "Blake3") {
        Ok(ContentDigest::blake3(bytes))
    } else {
        Err(corrupt("unknown DigestAlgorithm ", dto.algorithm.as_str()))
    }
}

pub fn dto_to_workspace_state(dto: &WorkspaceStateDto) -> (r: Result<WorkspaceState, EventStoreError>)
    ensures
        match state_of_dto(dto@) {
            Some(v) => r matches Ok(s) && s@ == v,
            None => r matches Err(e) && e is Corrupt,
        },
{
    let digest = match &dto.digest {
        Some(d) => Some(dto_to_digest(d)?),
        None => None,
    };
    Ok(WorkspaceState::new(WorkspaceGeneration::new(dto.generation), digest))
}

fn dto_to_opt_workspace_state(dto: &Option<WorkspaceStateDto>) -> (r: Result<Option<WorkspaceState>, EventStoreError>)
    ensures
        match opt_state_of_dto(opt_state_dto_view(*dto)) {
            Some(v) => r matches Ok(s) && opt_state_view(s) == v,
            None => r matches Err(e) && e is Corrupt,
        },
{
    match dto {
        Some(d) => Ok(Some(dto_to_workspace_state(d)?)),
        None => Ok(None),
    }
}

pub fn dto_to_transition(dto: &WorkspaceTransitionDto) -> (r: Result<WorkspaceTransition, EventStoreError>)
    ensures
        match transition_of_dto(dto@) {
            Some(v) => r matches Ok(t) && t@ == v,
            None => r matches Err(e) && e is Corrupt,
        },
{
    let previous = dto_to_workspace_state(&dto.previous)?;
    let current = dto_to_workspace_state(&dto.current)?;
    match WorkspaceTransition::new(previous, current) {
        Ok(t) => Ok(t),
        Err(e) => Err(EventStoreError::Corrupt(e.message())),
    }
}

pub fn dto_to_observation_time(dto: ObservationTimeDto) -> (r: ObservationTime)
    ensures
        r@ == time_of_dto(dto),
        time_wf(r@),
{
    match (dto.wall_clock, dto.monotonic) {
        (Some(wall), Some(mono)) => ObservationTime::both(UnixNanos::new(wall), MonotonicNanos::new(mono)),
        (Some(wall), None) => ObservationTime::wall_clock(UnixNanos::new(wall)),
        (None, _) => ObservationTime::unknown(),
    }
}

pub fn str_to_source_kind(text: &str) -> (r: Result<ObservationSourceKind, EventStoreError>)
    ensures
        match source_kind_of(text@) {
            Some(k) => r == Ok::<ObservationSourceKind, EventStoreError>(k),
            None => r matches Err(EventStoreError::Corrupt(m)) && m@ == "unknown ObservationSourceKind "@ + text@,
        },
{
    if str_equal(text, "Recorder") {
        Ok(ObservationSourceKind::Recorder)
    } else if str_equal(text, "Process") {
        Ok(ObservationSourceKind::Process)
    } else if str_equal(text, "FileSystem") {
        Ok(ObservationSourceKind::FileSystem)
    } else if str_equal(text, "Workspace") {
        Ok(ObservationSourceKind::Workspace)
    } else if str_equal(text, "Other") {
        Ok(ObservationSourceKind::Other)
    } else {
        Err(corrupt("unknown ObservationSourceKind ", text))
    }
}

pub fn str_to_gap_scope(text: &str) -> (r: Result<GapScope, EventStoreError>)
    ensures
        match gap_scope_of(text@) {
            Some(g) => r == Ok::<GapScope, EventStoreError>(g),
            None => r matches Err(EventStoreError::Corrupt(m)) && m@ == "unknown GapScope "@ + text@,
        },
{
    if str_equal(text, "ProcessTree") {
        Ok(GapScope::ProcessTree)
    } else if str_equal(text, "FileSystem") {
        Ok(GapScope::FileSystem)
    } else if str_equal(text, "WorkspaceState") {
        Ok(GapScope::WorkspaceState)
    } else if str_equal(text, "Output") {
        Ok(GapScope::Output)
    } else if str_equal(text, "CaptureAdapter") {
        Ok(GapScope::CaptureAdapter)
    } else if str_equal(text, "Recorder") {
        Ok(GapScope::Recorder)
    } else {
        Err(corrupt("unknown GapScope ", text))
    }
}

pub fn str_to_gap_reason(text: &str) -> (r: Result<GapReason, EventStoreError>)
    ensures
        match gap_reason_of(text@) {
            Some(g) => r == Ok::<GapReason, EventStoreError>(g),
            None => r matches Err(EventStoreError::Corrupt(m)) && m@ == "unknown GapReason "@ + text@,
        },
{
    if str_equal(text, "Unsupported") {
        Ok(GapReason::Unsupported)
    } else if str_equal(text, "BufferOverflow") {
        Ok(GapReason::BufferOverflow)
    } else if str_equal(text, "PermissionDenied") {
        Ok(GapReason::PermissionDenied)
    } else if str_equal(text, "ObserverFailed") {
        Ok(GapReason::ObserverFailed)
    } else if str_equal(text, "RecorderRestarted") {
        Ok(GapReason::RecorderRestarted)
    } else if str_equal(text, "Unknown") {
        Ok(GapReason::Unknown)
    } else {
        Err(corrupt("unknown GapReason ", text))
    }
}

pub fn str_to_outcome(text: &str) -> (r: Result<SessionOutcome, EventStoreError>)
    ensures
        match outcome_of(text@) {
            Some(o) => r == Ok::<SessionOutcome, EventStoreError>(o),
            None => r matches Err(EventStoreError::Corrupt(m)) && m@ == "unknown SessionOutcome "@ + text@,
        },
{
    if str_equal(text, "Completed") {
        Ok(SessionOutcome::Completed)
    } else if str_equal(text, "Aborted") {
        Ok(SessionOutcome::Aborted)
    } else if str_equal(text, "CaptureFailed") {
        Ok(SessionOutcome::CaptureFailed)
    } else {
        Err(corrupt("unknown SessionOutcome ", text))
    }
}

pub fn dto_to_source(dto: &ObservationSourceDto) -> (r: Result<ObservationSource, EventStoreError>)
    ensures
        match source_of_dto(dto@) {
            Some(v) => r matches Ok(s) && s@ == v,
            None => r matches Err(e) && e is Corrupt,
        },
{
    let id = SourceId::from_u128(parse_hex_field(dto.id.as_str(), "SourceId")?);
    let kind = str_to_source_kind(dto.kind.as_str())?;
    Ok(ObservationSource::new(id, kind))
}

fn parse_opt_hex_field(text: &Option<String>, field: &str) -> (r: Result<Option<u128>, EventStoreError>)
    ensures
        match opt_id_of_text(opt_text_view(*text)) {
            Some(v) => r == Ok::<Option<u128>, EventStoreError>(v),
            None => r matches Err(e) && e is Corrupt,
        },
{
    match text {
        Some(t) => Ok(Some(parse_hex_field(t.as_str(), field)?)),
        None => Ok(None),
    }
}


fn dto_to_runtime_kind(dto: &RuntimeObservationKindDto) -> (r: Result<RuntimeObservationKind, EventStoreError>)
    ensures
        match runtime_kind_of_dto(dto@) {
            Some(v) => r matches Ok(k) && k@ == v,
            None => r matches Err(e) && e is Corrupt,
        },
{
    match dto {
        RuntimeObservationKindDto::ProcessStarted(p) => {
            let process_id = ProcessInstanceId::from_u128(parse_hex_field(p.process_id.as_str(), "ProcessInstanceId")?);
            let parent = parse_opt_hex_field(&p.parent_process_id, "ProcessInstanceId")?;
            let parent_process_id = match parent {
                Some(v) => Some(ProcessInstanceId::from_u128(v)),
                None => None,
            };
            let command = dto_to_command(&p.command)?;
            let workspace_state = dto_to_opt_workspace_state(&p.workspace_state)?;
            Ok(RuntimeObservationKind::ProcessStarted(ProcessStarted {
                process_id,
                parent_process_id,
                operating_system_pid: p.operating_system_pid,
                command,
                workspace_state,
            }))
        },
        RuntimeObservationKindDto::ProcessExited(p) => {
            let process_id = ProcessInstanceId::from_u128(parse_hex_field(p.process_id.as_str(), "ProcessInstanceId")?);
            let termination = match p.termination {
                ProcessTerminationDto::ExitCode { code } => ProcessTermination::ExitCode(code),
                ProcessTerminationDto::Signal { signal } => ProcessTermination::Signal(signal),
                ProcessTerminationDto::Unknown => ProcessTermination::Unknown,
            };
            Ok(RuntimeObservationKind::ProcessExited(ProcessExited { process_id, termination }))
        },
        RuntimeObservationKindDto::FileMutationObserved(f) => {
            let path = dto_to_native_path(&f.path)?;
            let kind = match &f.kind {
                FileMutationKindDto::Created => FileMutationKind::Created,
                FileMutationKindDto::Modified => FileMutationKind::Modified,
                FileMutationKindDto::Deleted => FileMutationKind::Deleted,
                FileMutationKindDto::Renamed { from } => FileMutationKind::Renamed { from: dto_to_native_path(from)? },
            };
            Ok(RuntimeObservationKind::FileMutationObserved(FileMutationObserved { path, kind }))
        },
        RuntimeObservationKindDto::WorkspaceStateAdvanced(w) => {
            let transition = dto_to_transition(&w.transition)?;
            let cause = parse_opt_hex_field(&w.cause_event, "EventId")?;
            let cause_event = match cause {
                Some(v) => Some(EventId::from_u128(v)),
                None => None,
            };
            Ok(RuntimeObservationKind::WorkspaceStateAdvanced(WorkspaceStateAdvanced { transition, cause_event }))
        },
        RuntimeObservationKindDto::ObservationGap(g) => {
            let scope = str_to_gap_scope(g.scope.as_str())?;
            let reason = str_to_gap_reason(g.reason.as_str())?;
            Ok(RuntimeObservationKind::ObservationGap(ObservationGap { scope, reason, detail: g.detail.clone() }))
        },
    }
}

/// The observation a record holds; a record that holds none is reported as corrupt.
///
/// Together with `observation_to_dto` this reads back every well-formed observation
/// unchanged.
pub fn dto_to_observation(dto: &ObservationDto) -> (r: Result<Observation, EventStoreError>)
    ensures
        match observation_of_dto(dto@) {
            Some(v) => r matches Ok(o) && o@ == v,
            None => r matches Err(e) && e is Corrupt,
        },
{
    match dto {
        ObservationDto::SessionStarted(value) => {
            let command = dto_to_command(&value.command)?;
            let initial_workspace = dto_to_opt_workspace_state(&value.initial_workspace)?;
            Ok(Observation::SessionStarted(SessionStarted::new(command, initial_workspace)))
        },
        ObservationDto::SessionEnded(value) => {
            let outcome = str_to_outcome(value.outcome.as_str())?;
            let final_workspace = dto_to_opt_workspace_state(&value.final_workspace)?;
            Ok(Observation::SessionEnded(SessionEnded::new(outcome, final_workspace)))
        },
        ObservationDto::Runtime(value) => {
            let source = dto_to_source(&value.source)?;
            let observed_at = dto_to_observation_time(value.observed_at);
            let kind = dto_to_runtime_kind(&value.kind)?;
            Ok(Observation::Runtime(RuntimeObservation::new(source, observed_at, kind)))
        },
    }
}

} // verus!
