//! Running a capture source inside a recorded session.

use vstd::prelude::*;
use crate::clock::{Clock, IdGenerator};
use crate::event::{
    CommandSpec, CommandSpecView, EnvelopeView, GapReason, GapScope, ObservationView,
    RuntimeObservation, SessionEndedView, SessionOutcome, SessionStartedView,
};
use crate::recorder::{
    completed_session, lemma_final_sequence_counts_observations, lemma_last_sequence_counts_observations,
    observation_count, recording_failure, store_failure, CompletedSession, RecorderError, SessionRecorder,
};
use crate::scope::{WorkspaceScope, WorkspaceScopeView};
use crate::state::{duplicate_state_option, opt_state_view, WorkspaceState, WorkspaceStateView};
use crate::store::EventStore;
use crate::text::{push_str, string_of};

verus! {

/// What to run and the workspace it starts in.
#[derive(Clone, Debug, Eq, PartialEq)]
pub struct CaptureRequest {
    command: CommandSpec,
    initial_workspace: Option<WorkspaceState>,
    workspace_scope: Option<WorkspaceScope>,
}

pub struct CaptureRequestView {
    pub command: CommandSpecView,
    pub initial_workspace: Option<WorkspaceStateView>,
    pub workspace_scope: Option<WorkspaceScopeView>,
}

/// How a capture ended, as reported by the capture source.
#[derive(Clone, Debug, Eq, PartialEq)]
pub struct CaptureOutcome {
    session_outcome: SessionOutcome,
    final_workspace: Option<WorkspaceState>,
}

pub struct CaptureOutcomeView {
    pub session_outcome: SessionOutcome,
    pub final_workspace: Option<WorkspaceStateView>,
}

#[derive(Clone, Debug, Eq, PartialEq)]
pub enum CaptureError {
    Unsupported(String),
    Failed(String),
    ObservationSink(RecorderError),
}

/// The recorded session of one execution, with the capture failure if there was one.
pub struct RecordedExecution<S, C, I> {
    session: CompletedSession<S, C, I>,
    capture_error: Option<CaptureError>,
}

#[derive(Clone, Debug, Eq, PartialEq)]
pub enum RecordExecutionError {
    Recorder(RecorderError),
}

/// `a` is an initial segment of `b`.
pub open spec fn prefix_of<T>(a: Seq<T>, b: Seq<T>) -> bool {
    a.len() <= b.len() && b.subrange(0, a.len() as int) == a
}

/// Where a capture source hands its runtime observations.
pub trait ObservationSink {
    /// Whether the sink can accept observations.
    spec fn ready(&self) -> bool;

    /// The events the sink holds so far, in order.
    spec fn accepted(&self) -> Seq<EnvelopeView>;

    fn record(&mut self, observation: RuntimeObservation) -> (r: Result<(), RecorderError>)
        requires
            old(self).ready(),
        ensures
            final(self).ready(),
            prefix_of(old(self).accepted(), final(self).accepted()),
            r is Ok ==> final(self).accepted().len() == old(self).accepted().len() + 1
                && final(self).accepted().last().observation == ObservationView::Runtime(observation@),
            r is Err ==> final(self).accepted() == old(self).accepted(),
            r matches Err(e) ==> recording_failure(e, old(self).accepted().len()),
    ;
}

/// A source of runtime observations about one execution of a command.
///
/// A capture may only add to the sink; whatever it records stays recorded. It reports
/// `CaptureError::ObservationSink` only with an error a sink can give back. Each
/// implementation says, through `reports`, which results it can give and how giving one
/// changes it.
pub trait ExecutionCapture: Sized {
    /// The capture, going from `self` to `after`, can give `result` for the request.
    ///
    /// A capture kept outside the library, whose results the library cannot describe,
    /// leaves this unspecified.
    closed spec fn reports(
        self,
        after: Self,
        request: CaptureRequestView,
        result: Result<CaptureOutcome, CaptureError>,
    ) -> bool {
        arbitrary()
    }

    fn capture<K: ObservationSink>(&mut self, request: &CaptureRequest, sink: &mut K) -> (r: Result<
        CaptureOutcome,
        CaptureError,
    >)
        requires
            old(sink).ready(),
        ensures
            final(sink).ready(),
            prefix_of(old(sink).accepted(), final(sink).accepted()),
            r matches Err(CaptureError::ObservationSink(e)) ==> recording_failure(e, final(sink).accepted().len()),
            old(self).reports(*final(self), request@, r),
    ;
}

impl<S: EventStore, C: Clock, I: IdGenerator> ObservationSink for SessionRecorder<S, C, I> {
    open spec fn ready(&self) -> bool {
        self.wf()
    }

    open spec fn accepted(&self) -> Seq<EnvelopeView> {
        self.events()
    }

    fn record(&mut self, observation: RuntimeObservation) -> (r: Result<(), RecorderError>) {
        match self.record_observation(observation) {
            Ok(_) => {
                assert(final(self).events().subrange(0, old(self).events().len() as int) =~= old(self).events());
                Ok(())
            },
            Err(e) => {
                assert(final(self).events().subrange(0, old(self).events().len() as int) =~= old(self).events());
                Err(e)
            },
        }
    }
}

impl View for CaptureRequest {
    type V = CaptureRequestView;

    closed spec fn view(&self) -> CaptureRequestView {
        CaptureRequestView {
            command: self.command@,
            initial_workspace: opt_state_view(self.initial_workspace),
            workspace_scope: match self.workspace_scope {
                Some(s) => Some(s@),
                None => None,
            },
        }
    }
}

impl CaptureRequest {
    pub fn new(command: CommandSpec, initial_workspace: Option<WorkspaceState>) -> (r: Self)
        ensures
            r@ == (CaptureRequestView {
                command: command@,
                initial_workspace: opt_state_view(initial_workspace),
                workspace_scope: None,
            }),
    {
        CaptureRequest { command, initial_workspace, workspace_scope: None }
    }

    pub fn with_scope(
        command: CommandSpec,
        initial_workspace: Option<WorkspaceState>,
        workspace_scope: WorkspaceScope,
    ) -> (r: Self)
        ensures
            r@ == (CaptureRequestView {
                command: command@,
                initial_workspace: opt_state_view(initial_workspace),
                workspace_scope: Some(workspace_scope@),
            }),
    {
        CaptureRequest { command, initial_workspace, workspace_scope: Some(workspace_scope) }
    }

    pub fn command(&self) -> (r: &CommandSpec)
        ensures
            r@ == self@.command,
    {
        &self.command
    }

    pub fn initial_workspace(&self) -> (r: Option<&WorkspaceState>)
        ensures
            r matches Some(s) ==> self@.initial_workspace == Some(s@),
            r is None <==> self@.initial_workspace is None,
    {
        match &self.initial_workspace {
            Some(s) => Some(s),
            None => None,
        }
    }

    pub fn workspace_scope(&self) -> (r: Option<&WorkspaceScope>)
        ensures
            r matches Some(s) ==> self@.workspace_scope == Some(s@),
            r is None <==> self@.workspace_scope is None,
    {
        match &self.workspace_scope {
            Some(s) => Some(s),
            None => None,
        }
    }
}

impl View for CaptureOutcome {
    type V = CaptureOutcomeView;

    closed spec fn view(&self) -> CaptureOutcomeView {
        CaptureOutcomeView {
            session_outcome: self.session_outcome,
            final_workspace: opt_state_view(self.final_workspace),
        }
    }
}

impl CaptureOutcome {
    pub fn new(session_outcome: SessionOutcome, final_workspace: Option<WorkspaceState>) -> (r: Self)
        ensures
            r@ == (CaptureOutcomeView { session_outcome, final_workspace: opt_state_view(final_workspace) }),
    {
        CaptureOutcome { session_outcome, final_workspace }
    }

    pub fn session_outcome(&self) -> (r: SessionOutcome)
        ensures
            r == self@.session_outcome,
    {
        self.session_outcome
    }

    pub fn final_workspace(&self) -> (r: Option<&WorkspaceState>)
        ensures
            r matches Some(s) ==> self@.final_workspace == Some(s@),
            r is None <==> self@.final_workspace is None,
    {
        match &self.final_workspace {
            Some(s) => Some(s),
            None => None,
        }
    }

    pub fn into_parts(self) -> (r: (SessionOutcome, Option<WorkspaceState>))
        ensures
            r.0 == self@.session_outcome,
            opt_state_view(r.1) == self@.final_workspace,
    {
        (self.session_outcome, self.final_workspace)
    }
}

impl CaptureError {
    pub open spec fn spec_message(&self) -> Seq<char> {
        match self {
            CaptureError::Unsupported(detail) => "capture unsupported: "@ + detail@,
            CaptureError::Failed(detail) => "capture failed: "@ + detail@,
            CaptureError::ObservationSink(source) => "observation sink failed: "@ + source.spec_message(),
        }
    }

    /// The human-readable description of the error.
    pub fn message(&self) -> (r: String)
        ensures
            r@ == self.spec_message(),
    {
        match self {
            CaptureError::Unsupported(detail) => {
                let mut s = string_of("capture unsupported: ");
                push_str(&mut s, detail.as_str());
                s
            },
            CaptureError::Failed(detail) => {
                let mut s = string_of("capture failed: ");
                push_str(&mut s, detail.as_str());
                s
            },
            CaptureError::ObservationSink(source) => {
                let mut s = string_of("observation sink failed: ");
                let m = source.message();
                push_str(&mut s, m.as_str());
                s
            },
        }
    }
}

impl RecordExecutionError {
    pub open spec fn spec_message(&self) -> Seq<char> {
        match self {
            RecordExecutionError::Recorder(source) => "session recorder failed: "@ + source.spec_message(),
        }
    }

    /// The human-readable description of the error.
    pub fn message(&self) -> (r: String)
        ensures
            r@ == self.spec_message(),
    {
        match self {
            RecordExecutionError::Recorder(source) => {
                let mut s = string_of("session recorder failed: ");
                let m = source.message();
                push_str(&mut s, m.as_str());
                s
            },
        }
    }
}

impl<S: EventStore, C, I> RecordedExecution<S, C, I> {
    pub closed spec fn spec_session(&self) -> CompletedSession<S, C, I> {
        self.session
    }

    pub closed spec fn spec_capture_error(&self) -> Option<CaptureError> {
        self.capture_error
    }

    pub fn session(&self) -> (r: &CompletedSession<S, C, I>)
        ensures
            *r == self.spec_session(),
    {
        &self.session
    }

    pub fn capture_error(&self) -> (r: Option<&CaptureError>)
        ensures
            r matches Some(e) ==> self.spec_capture_error() == Some(*e),
            r is None <==> self.spec_capture_error() is None,
    {
        match &self.capture_error {
            Some(e) => Some(e),
            None => None,
        }
    }

    pub fn into_session(self) -> (r: CompletedSession<S, C, I>)
        ensures
            r == self.spec_session(),
    {
        self.session
    }
}

/// The session event that records a failed capture as a gap of the capture adapter.
pub open spec fn capture_failure_gap(error: CaptureError) -> ObservationView {
    ObservationView::Runtime(
        RuntimeObservation::spec_recorder_gap(GapScope::CaptureAdapter, GapReason::ObserverFailed, error.spec_message()),
    )
}

/// Closes a session given what the capture reported.
///
/// A completed capture ends the session with the reported outcome and final workspace; a
/// failed capture is recorded as a capture-adapter gap and ends the session as
/// `CaptureFailed` without a final workspace; a failure of the sink itself is passed on.
pub fn conclude_capture<S: EventStore, C: Clock, I: IdGenerator>(
    recorder: SessionRecorder<S, C, I>,
    captured: Result<CaptureOutcome, CaptureError>,
) -> (r: Result<RecordedExecution<S, C, I>, RecordExecutionError>)
    requires
        recorder.wf(),
    ensures
        r matches Ok(ex) ==> {
            let ev = ex.spec_session().events();
            &&& ex.spec_session().spec_session_id() == recorder.spec_session_id()
            &&& completed_session(ev, recorder.spec_session_id())
            &&& ev.len() == ex.spec_session().spec_final_sequence() + 1
            &&& match captured {
                Ok(outcome) => {
                    &&& ex.spec_capture_error() is None
                    &&& ex.spec_session().spec_final_sequence() == observation_count(recorder.events()) + 1
                    &&& ev.drop_last() == recorder.events()
                    &&& ev.last().observation == ObservationView::SessionEnded(SessionEndedView {
                        outcome: outcome@.session_outcome,
                        final_workspace: outcome@.final_workspace,
                    })
                },
                Err(error) => {
                    &&& !(error is ObservationSink)
                    &&& ex.spec_capture_error() == Some(error)
                    &&& ex.spec_session().spec_final_sequence() == observation_count(recorder.events()) + 2
                    &&& ev.len() == recorder.events().len() + 2
                    &&& ev.subrange(0, recorder.events().len() as int) == recorder.events()
                    &&& ev[ev.len() - 2].observation == capture_failure_gap(error)
                    &&& ev.last().observation == ObservationView::SessionEnded(SessionEndedView {
                        outcome: SessionOutcome::CaptureFailed,
                        final_workspace: None,
                    })
                },
            }
        },
        r matches Err(RecordExecutionError::Recorder(e)) ==> {
            ||| captured == Err::<CaptureOutcome, CaptureError>(CaptureError::ObservationSink(e))
            ||| e matches RecorderError::Store(se) && store_failure(se)
            ||| e == RecorderError::SequenceExhausted && match captured {
                Ok(_) => recorder.spec_last_sequence() == u64::MAX,
                Err(_) => recorder.spec_last_sequence() >= u64::MAX - 1,
            }
        },
        captured matches Err(CaptureError::ObservationSink(e)) ==> r == Err::<
            RecordedExecution<S, C, I>,
            RecordExecutionError,
        >(RecordExecutionError::Recorder(e)),
{
    proof {
        lemma_last_sequence_counts_observations(recorder);
    }
    let mut recorder = recorder;
    match captured {
        Ok(outcome) => {
            let (session_outcome, final_workspace) = outcome.into_parts();
            match recorder.finish(session_outcome, final_workspace) {
                Ok(session) => Ok(RecordedExecution { session, capture_error: None }),
                Err(e) => Err(RecordExecutionError::Recorder(e)),
            }
        },
        Err(CaptureError::ObservationSink(source)) => Err(RecordExecutionError::Recorder(source)),
        Err(error) => {
            let ghost start = recorder.events();
            let detail = error.message();
            match recorder.record_observation(
                RuntimeObservation::recorder_gap(GapScope::CaptureAdapter, GapReason::ObserverFailed, detail),
            ) {
                Ok(_) => {},
                Err(e) => return Err(RecordExecutionError::Recorder(e)),
            }
            let ghost middle = recorder.events();
            match recorder.finish(SessionOutcome::CaptureFailed, None) {
                Ok(session) => {
                    proof {
                        let ev = session.events();
                        assert(ev.drop_last() == middle);
                        assert(middle.drop_last() == start);
                        assert(ev.subrange(0, start.len() as int) =~= start);
                        assert(ev[ev.len() - 2] == middle.last());
                    }
                    Ok(RecordedExecution { session, capture_error: Some(error) })
                },
                Err(e) => Err(RecordExecutionError::Recorder(e)),
            }
        },
    }
}

/// `rec` is a session opened on `store` for the request: well formed, on a session id whose
/// stream was empty, and starting with the request's `SessionStarted`.
pub open spec fn opened_from<S: EventStore, C: Clock, I: IdGenerator>(
    rec: SessionRecorder<S, C, I>,
    store: S,
    request: CaptureRequestView,
) -> bool {
    &&& rec.wf()
    &&& store.stream(rec.spec_session_id()).len() == 0
    &&& rec.events()[0].observation == ObservationView::SessionStarted(SessionStartedView {
        command: request.command,
        initial_workspace: request.initial_workspace,
    })
}

/// How an opened session can fail to close: its store failed, or its sequence numbers ran
/// out, which takes at least `u64::MAX - 1` events before the end.
pub open spec fn closing_failure<S: EventStore, C: Clock, I: IdGenerator>(
    rec: SessionRecorder<S, C, I>,
    e: RecorderError,
) -> bool {
    ||| e matches RecorderError::Store(se) && store_failure(se)
    ||| e == RecorderError::SequenceExhausted && rec.spec_last_sequence() >= u64::MAX - 1
}

/// Records one execution: opens a session for the request's command and initial workspace,
/// lets the capture source record what it observes, and closes the session.
pub fn record_execution<S: EventStore, C: Clock, I: IdGenerator, X: ExecutionCapture>(
    store: S,
    clock: C,
    ids: I,
    capture: &mut X,
    request: CaptureRequest,
) -> (r: Result<RecordedExecution<S, C, I>, RecordExecutionError>)
    ensures
        r matches Ok(ex) ==> {
            let ev = ex.spec_session().events();
            &&& completed_session(ev, ex.spec_session().spec_session_id())
            &&& ev.len() == ex.spec_session().spec_final_sequence() + 1
            &&& ex.spec_session().spec_final_sequence() == observation_count(ev) + 1
            &&& exists|captured: Result<CaptureOutcome, CaptureError>| #[trigger] old(capture).reports(
                *final(capture),
                request@,
                captured,
            ) && match captured {
                Ok(outcome) => {
                    &&& ex.spec_capture_error() is None
                    &&& ev.last().observation == ObservationView::SessionEnded(SessionEndedView {
                        outcome: outcome@.session_outcome,
                        final_workspace: outcome@.final_workspace,
                    })
                },
                Err(error) => ex.spec_capture_error() == Some(error),
            }
            &&& store.stream(ex.spec_session().spec_session_id()).len() == 0
            &&& ev[0].observation == ObservationView::SessionStarted(SessionStartedView {
                command: request@.command,
                initial_workspace: request@.initial_workspace,
            })
            &&& ex.spec_capture_error() matches Some(error) ==> {
                &&& !(error is ObservationSink)
                &&& ev[ev.len() - 2].observation == capture_failure_gap(error)
                &&& ev.last().observation == ObservationView::SessionEnded(SessionEndedView {
                    outcome: SessionOutcome::CaptureFailed,
                    final_workspace: None,
                })
            }
        },
        r matches Err(RecordExecutionError::Recorder(e)) ==> {
            ||| {
                &&& *final(capture) == *old(capture)
                &&& e matches RecorderError::Store(se) && (store_failure(se) || (se is Conflict
                    && exists|s: u128| #[trigger] store.stream(s).len() > 0))
            }
            ||| exists|rec: SessionRecorder<S, C, I>| #[trigger] opened_from(rec, store, request@) && closing_failure(rec, e)
        },
{
    let ghost store0 = store;
    let command = request.command().duplicate();
    let initial_workspace = duplicate_state_option(request.initial_workspace());
    let mut recorder = match SessionRecorder::start(store, clock, ids, command, initial_workspace) {
        Ok(rec) => rec,
        Err(e) => return Err(RecordExecutionError::Recorder(e)),
    };
    let ghost opened = recorder.events();
    let ghost sid = recorder.spec_session_id();
    let captured = capture.capture(&request, &mut recorder);
    proof {
        assert(recorder.events()[0] == opened[0]);
        assert(recorder.spec_session_id() == recorder.events()[0].session_id);
    }
    let ghost after = recorder;
    let ghost reported = captured;
    let result = conclude_capture(recorder, captured);
    proof {
        if result is Ok {
            let ex = result->Ok_0;
            assert(old(capture).reports(*capture, request@, reported));
            lemma_final_sequence_counts_observations(ex.spec_session().events(), ex.spec_session().spec_session_id());
        }
        if result is Err {
            let e = result->Err_0->Recorder_0;
            assert(opened_from(after, store0, request@));
            assert(closing_failure(after, e));
        }
    }
    result
}


impl From<RecorderError> for CaptureError {
    fn from(value: RecorderError) -> (r: Self) {
        CaptureError::ObservationSink(value)
    }
}

impl vstd::std_specs::convert::FromSpecImpl<RecorderError> for CaptureError {
    open spec fn obeys_from_spec() -> bool {
        true
    }

    open spec fn from_spec(v: RecorderError) -> CaptureError {
        CaptureError::ObservationSink(v)
    }
}

impl From<RecorderError> for RecordExecutionError {
    fn from(value: RecorderError) -> (r: Self) {
        RecordExecutionError::Recorder(value)
    }
}

impl vstd::std_specs::convert::FromSpecImpl<RecorderError> for RecordExecutionError {
    open spec fn obeys_from_spec() -> bool {
        true
    }

    open spec fn from_spec(v: RecorderError) -> RecordExecutionError {
        RecordExecutionError::Recorder(v)
    }
}

} // verus!
