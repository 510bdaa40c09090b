//! The validation report of a session: the last passing cargo check, the final workspace
//! state, and whether that evidence is still fresh.

use std::collections::HashMap;
use vstd::prelude::*;
use crate::event::{
    CommandSpecView, EnvelopeView, EventEnvelope, Observation, ObservationView, RuntimeKindView,
    RuntimeObservationKind, GapScope, ProcessTermination, };
use crate::identity::{EventId, SessionId};
use crate::state::{opt_state_view, WorkspaceState, WorkspaceStateView};
use crate::store::envelope_views;
use crate::text::{decimal, hex32, push_decimal, push_hex32, push_str, string_of};
use crate::validation::{
    assess_validation_freshness, classify, classify_cargo_validation, freshness, passing,
    CargoValidationKind, EvidenceContinuity, EvidenceFreshness, CARGO_VALIDATION_RULE_VERSION,
};

verus! {

broadcast use vstd::std_specs::hash::group_hash_axioms;

#[derive(Clone, Debug, Eq, PartialEq)]
pub struct PassingValidation {
    pub kind: CargoValidationKind,
    pub rule_version: u32,
    pub event_id: EventId,
    pub sequence: u64,
    pub validated_state: Option<WorkspaceState>,
}

#[derive(Clone, Debug, Eq, PartialEq)]
pub struct ValidationReport {
    pub session_id: SessionId,
    pub final_state: Option<WorkspaceState>,
    pub last_passing: Option<PassingValidation>,
    pub freshness: EvidenceFreshness,
    pub continuity: EvidenceContinuity,
    pub has_gap_after_validation: bool,
}

pub struct PassingValidationView {
    pub kind: CargoValidationKind,
    pub rule_version: u32,
    pub event_id: u128,
    pub sequence: u64,
    pub validated_state: Option<WorkspaceStateView>,
}

pub struct ValidationReportView {
    pub session_id: u128,
    pub final_state: Option<WorkspaceStateView>,
    pub last_passing: Option<PassingValidationView>,
    pub freshness: EvidenceFreshness,
    pub continuity: EvidenceContinuity,
    pub has_gap_after_validation: bool,
}

impl View for PassingValidation {
    type V = PassingValidationView;

    open spec fn view(&self) -> PassingValidationView {
        PassingValidationView {
            kind: self.kind,
            rule_version: self.rule_version,
            event_id: self.event_id@,
            sequence: self.sequence,
            validated_state: opt_state_view(self.validated_state),
        }
    }
}

impl View for ValidationReport {
    type V = ValidationReportView;

    open spec fn view(&self) -> ValidationReportView {
        ValidationReportView {
            session_id: self.session_id@,
            final_state: opt_state_view(self.final_state),
            last_passing: match self.last_passing {
                Some(p) => Some(p@),
                None => None,
            },
            freshness: self.freshness,
            continuity: self.continuity,
            has_gap_after_validation: self.has_gap_after_validation,
        }
    }
}

// ---------------------------------------------------------------------------
// What the report is, over the events of a session.
// ---------------------------------------------------------------------------

/// The workspace state an event declares final: a session end's final workspace, or the
/// state a workspace transition advanced to.
pub open spec fn declared_state(e: EnvelopeView) -> Option<Option<WorkspaceStateView>> {
    match e.observation {
        ObservationView::SessionEnded(se) => Some(se.final_workspace),
        ObservationView::Runtime(rt) => match rt.kind {
            RuntimeKindView::WorkspaceStateAdvanced(w) => Some(Some(w.transition.current)),
            _ => None,
        },
        _ => None,
    }
}

/// The state declared by the last declaring event among the first `n` events.
pub open spec fn last_declared_state(events: Seq<EnvelopeView>, n: int) -> Option<WorkspaceStateView>
    decreases n,
{
    if n <= 0 {
        None
    } else {
        match declared_state(events[n - 1]) {
            Some(s) => s,
            None => last_declared_state(events, n - 1),
        }
    }
}

/// The state a workspace transition advanced to.
pub open spec fn advanced_state(e: EnvelopeView) -> Option<WorkspaceStateView> {
    match e.observation {
        ObservationView::Runtime(rt) => match rt.kind {
            RuntimeKindView::WorkspaceStateAdvanced(w) => Some(w.transition.current),
            _ => None,
        },
        _ => None,
    }
}

/// The state reached by the last workspace transition among the first `n` events.
pub open spec fn last_advanced_state(events: Seq<EnvelopeView>, n: int) -> Option<WorkspaceStateView>
    decreases n,
{
    if n <= 0 {
        None
    } else {
        match advanced_state(events[n - 1]) {
            Some(s) => Some(s),
            None => last_advanced_state(events, n - 1),
        }
    }
}

/// The final workspace state of the session: the last declared state, or, when the last
/// declaration left it unknown, the state of the last workspace transition.
pub open spec fn session_final_state(events: Seq<EnvelopeView>) -> Option<WorkspaceStateView> {
    match last_declared_state(events, events.len() as int) {
        Some(s) => Some(s),
        None => last_advanced_state(events, events.len() as int),
    }
}

pub open spec fn is_gap(e: EnvelopeView) -> bool {
    e.observation matches ObservationView::Runtime(rt) && rt.kind is ObservationGap
}

/// A gap in the observation of files or of the workspace state.
pub open spec fn is_workspace_gap(e: EnvelopeView) -> bool {
    e.observation matches ObservationView::Runtime(rt) && rt.kind matches RuntimeKindView::ObservationGap(g)
        && (g.scope == GapScope::WorkspaceState || g.scope == GapScope::FileSystem)
}

pub open spec fn started_pid(e: EnvelopeView) -> Option<u128> {
    match e.observation {
        ObservationView::Runtime(rt) => match rt.kind {
            RuntimeKindView::ProcessStarted(p) => Some(p.process_id),
            _ => None,
        },
        _ => None,
    }
}

pub open spec fn exited_pid(e: EnvelopeView) -> Option<u128> {
    match e.observation {
        ObservationView::Runtime(rt) => match rt.kind {
            RuntimeKindView::ProcessExited(p) => Some(p.process_id),
            _ => None,
        },
        _ => None,
    }
}

pub open spec fn mentions(e: EnvelopeView, pid: u128) -> bool {
    started_pid(e) == Some(pid) || exited_pid(e) == Some(pid)
}

/// The index of the last event before index `j` that starts or ends process `pid`, or -1.
pub open spec fn last_mention_before(events: Seq<EnvelopeView>, j: int, pid: u128) -> int
    decreases j,
{
    if j <= 0 {
        -1
    } else if mentions(events[j - 1], pid) {
        j - 1
    } else {
        last_mention_before(events, j - 1, pid)
    }
}

/// For the exit event at index `j`: the index of the start of the same process instance,
/// when the last event about that process before the exit is its start.
pub open spec fn matched_start(events: Seq<EnvelopeView>, j: int) -> Option<int> {
    match exited_pid(events[j]) {
        Some(pid) => {
            let i = last_mention_before(events, j, pid);
            if i >= 0 && started_pid(events[i]) == Some(pid) {
                Some(i)
            } else {
                None
            }
        },
        None => None,
    }
}

pub open spec fn started_command(e: EnvelopeView) -> CommandSpecView {
    match e.observation {
        ObservationView::Runtime(rt) => match rt.kind {
            RuntimeKindView::ProcessStarted(p) => p.command,
            _ => arbitrary(),
        },
        _ => arbitrary(),
    }
}

pub open spec fn started_state(e: EnvelopeView) -> Option<WorkspaceStateView> {
    match e.observation {
        ObservationView::Runtime(rt) => match rt.kind {
            RuntimeKindView::ProcessStarted(p) => p.workspace_state,
            _ => None,
        },
        _ => None,
    }
}

pub open spec fn exit_termination(e: EnvelopeView) -> ProcessTermination {
    match e.observation {
        ObservationView::Runtime(rt) => match rt.kind {
            RuntimeKindView::ProcessExited(p) => p.termination,
            _ => ProcessTermination::Unknown,
        },
        _ => ProcessTermination::Unknown,
    }
}

/// The exit at index `j` ends a passing cargo check that was seen starting.
pub open spec fn passing_check_exit(events: Seq<EnvelopeView>, j: int) -> bool {
    matched_start(events, j) matches Some(i) && classify(started_command(events[i])) is Some
        && passing(exit_termination(events[j]))
}

pub open spec fn sequence_or_zero(events: Seq<EnvelopeView>, b: Option<int>) -> u64 {
    match b {
        Some(i) => events[i].sequence,
        None => 0,
    }
}

/// Among the first `n` events, the passing check exit with the highest sequence (the first
/// such in stream order), provided that sequence is above zero.
pub open spec fn best_passing(events: Seq<EnvelopeView>, n: int) -> Option<int>
    decreases n,
{
    if n <= 0 {
        None
    } else {
        let b = best_passing(events, n - 1);
        if passing_check_exit(events, n - 1) && events[n - 1].sequence > sequence_or_zero(events, b) {
            Some(n - 1)
        } else {
            b
        }
    }
}

/// A file-system or workspace-state gap follows the exit at index `b` in the stream and has
/// a higher sequence.
pub open spec fn gap_after(events: Seq<EnvelopeView>, b: int) -> bool {
    exists|g: int| b < g < events.len() && is_workspace_gap(#[trigger] events[g]) && events[g].sequence > events[b].sequence
}

pub open spec fn report_continuity(events: Seq<EnvelopeView>) -> EvidenceContinuity {
    if exists|i: int| 0 <= i < events.len() && is_gap(#[trigger] events[i]) {
        EvidenceContinuity::GapObserved
    } else {
        EvidenceContinuity::Complete
    }
}

pub open spec fn passing_view(events: Seq<EnvelopeView>, j: int) -> PassingValidationView {
    let i = matched_start(events, j)->0;
    PassingValidationView {
        kind: classify(started_command(events[i]))->0,
        rule_version: CARGO_VALIDATION_RULE_VERSION,
        event_id: events[j].event_id,
        sequence: events[j].sequence,
        validated_state: match started_state(events[i]) {
            Some(s) => Some(s),
            None => session_final_state(events),
        },
    }
}

pub open spec fn report_freshness(
    last_passing: Option<PassingValidationView>,
    final_state: Option<WorkspaceStateView>,
    continuity: EvidenceContinuity,
    gap_after_validation: bool,
) -> EvidenceFreshness {
    match last_passing {
        Some(p) => match (p.validated_state, final_state) {
            (Some(vs), Some(fs)) => if gap_after_validation {
                EvidenceFreshness::Indeterminate
            } else {
                freshness(vs, Some(fs), continuity)
            },
            (None, Some(_)) => if continuity == EvidenceContinuity::GapObserved {
                EvidenceFreshness::Indeterminate
            } else {
                EvidenceFreshness::Current
            },
            _ => EvidenceFreshness::Indeterminate,
        },
        None => EvidenceFreshness::Indeterminate,
    }
}

/// The validation report of a session's events.
pub open spec fn validation_report(session_id: u128, events: Seq<EnvelopeView>) -> ValidationReportView {
    let best = best_passing(events, events.len() as int);
    let last_passing = match best {
        Some(j) => Some(passing_view(events, j)),
        None => None,
    };
    let gap = match best {
        Some(j) => gap_after(events, j),
        None => false,
    };
    let final_state = session_final_state(events);
    let continuity = report_continuity(events);
    ValidationReportView {
        session_id,
        final_state,
        last_passing,
        freshness: report_freshness(last_passing, final_state, continuity, gap),
        continuity,
        has_gap_after_validation: gap,
    }
}

/// The last exit among the first `n` events, in stream order, that ends a passing check.
pub open spec fn last_passing_exit(events: Seq<EnvelopeView>, n: int) -> Option<int>
    decreases n,
{
    if n <= 0 {
        None
    } else if passing_check_exit(events, n - 1) {
        Some(n - 1)
    } else {
        last_passing_exit(events, n - 1)
    }
}

proof fn lemma_last_passing_exit_below(events: Seq<EnvelopeView>, n: int)
    ensures
        last_passing_exit(events, n) matches Some(j) ==> 0 <= j < n && passing_check_exit(events, j),
    decreases n,
{
    if n > 0 {
        lemma_last_passing_exit_below(events, n - 1);
    }
}

proof fn lemma_best_is_last(events: Seq<EnvelopeView>, n: int)
    requires
        0 <= n <= events.len(),
        forall|i: int, j: int| 0 <= i < j < events.len() ==> #[trigger] events[i].sequence < #[trigger] events[j].sequence,
    ensures
        best_passing(events, n) == last_passing_exit(events, n),
    decreases n,
{
    if n > 0 {
        lemma_best_is_last(events, n - 1);
        lemma_last_passing_exit_below(events, n - 1);
        if passing_check_exit(events, n - 1) {
            let pid = exited_pid(events[n - 1])->0;
            lemma_last_mention_below(events, n - 1, pid);
            assert(n - 1 >= 1);
            assert(events[0].sequence < events[n - 1].sequence);
            if let Some(k) = last_passing_exit(events, n - 1) {
                assert(events[k].sequence < events[n - 1].sequence);
            }
        }
    }
}

/// In a stream numbered in increasing order, the validation a report rests on is the last
/// exit, in stream order, that ends a passing cargo check.
pub proof fn lemma_report_rests_on_last_passing_exit(session_id: u128, events: Seq<EnvelopeView>)
    requires
        forall|i: int, j: int| 0 <= i < j < events.len() ==> #[trigger] events[i].sequence < #[trigger] events[j].sequence,
    ensures
        validation_report(session_id, events).last_passing == match last_passing_exit(events, events.len() as int) {
            Some(j) => Some(passing_view(events, j)),
            None => None,
        },
{
    lemma_best_is_last(events, events.len() as int);
}

/// A passing check, in a session that observed no gap: the report calls it stale when the
/// workspace state it validated is not the session's final state, and current when it is.
pub proof fn lemma_freshness_compares_validated_and_final_state(
    session_id: u128,
    events: Seq<EnvelopeView>,
    validated: WorkspaceStateView,
    final_state: WorkspaceStateView,
)
    requires
        validation_report(session_id, events).last_passing matches Some(p) && p.validated_state == Some(validated),
        validation_report(session_id, events).final_state == Some(final_state),
        forall|i: int| 0 <= i < events.len() ==> !is_gap(#[trigger] events[i]),
    ensures
        validation_report(session_id, events).continuity == EvidenceContinuity::Complete,
        validation_report(session_id, events).freshness == if validated == final_state {
            EvidenceFreshness::Current
        } else {
            EvidenceFreshness::Stale
        },
{
    let best = best_passing(events, events.len() as int);
    lemma_best_passing_is_a_passing_exit(events, events.len() as int);
    assert(!exists|i: int| 0 <= i < events.len() && is_gap(#[trigger] events[i]));
    assert(report_continuity(events) == EvidenceContinuity::Complete);
    if let Some(j) = best {
        if gap_after(events, j) {
            let g = choose|g: int| j < g < events.len() && is_workspace_gap(#[trigger] events[g])
                && events[g].sequence > events[j].sequence;
            assert(is_gap(events[g]));
        }
        assert(!gap_after(events, j));
    }
}

proof fn lemma_best_passing_is_a_passing_exit(events: Seq<EnvelopeView>, n: int)
    ensures
        best_passing(events, n) matches Some(j) ==> 0 <= j < n && passing_check_exit(events, j),
    decreases n,
{
    if n > 0 {
        lemma_best_passing_is_a_passing_exit(events, n - 1);
    }
}

/// The evidence a report names is a process of the session that started before it exited,
/// ran a supported cargo check and exited with code zero: the report gives that check's
/// kind, the exit's event and sequence, and, when the start recorded a workspace state,
/// that state as the one validated.
pub proof fn lemma_report_names_a_passing_check(session_id: u128, events: Seq<EnvelopeView>)
    ensures
        validation_report(session_id, events).last_passing matches Some(p) ==> exists|i: int, j: int|
            0 <= i < j < events.len() && #[trigger] started_pid(events[i]) is Some && started_pid(events[i])
                == #[trigger] exited_pid(events[j]) && classify(started_command(events[i])) == Some(p.kind)
                && exit_termination(events[j]) == ProcessTermination::ExitCode(0) && p.event_id == events[j].event_id
                && p.sequence == events[j].sequence && p.rule_version == CARGO_VALIDATION_RULE_VERSION
                && (started_state(events[i]) matches Some(s) ==> p.validated_state == Some(s)),
{
    let n = events.len() as int;
    lemma_best_passing_is_a_passing_exit(events, n);
    if let Some(j) = best_passing(events, n) {
        let i = matched_start(events, j)->0;
        let pid = exited_pid(events[j])->0;
        lemma_last_mention_below(events, j, pid);
        assert(0 <= i < j < events.len() && started_pid(events[i]) is Some && started_pid(events[i]) == exited_pid(events[j]));
    }
}

/// A session that ends declaring a final workspace state has that state as the report's
/// final state.
pub proof fn lemma_report_final_state_is_the_declared_end(session_id: u128, events: Seq<EnvelopeView>)
    requires
        events.len() > 0,
        events.last().observation matches ObservationView::SessionEnded(se) && se.final_workspace is Some,
    ensures
        validation_report(session_id, events).final_state == events.last().observation->SessionEnded_0.final_workspace,
{
}

// ---------------------------------------------------------------------------
// Computing the report.
// ---------------------------------------------------------------------------

fn declared_state_of(e: &EventEnvelope) -> (r: Option<Option<&WorkspaceState>>)
    ensures
        match r {
            Some(Some(s)) => declared_state(e@) == Some(Some(s@)),
            Some(None) => declared_state(e@) == Some(None::<WorkspaceStateView>),
            None => declared_state(e@) is None,
        },
{
    match e.observation() {
        Observation::SessionEnded(se) => Some(se.final_workspace()),
        Observation::Runtime(rt) => match rt.kind() {
            RuntimeObservationKind::WorkspaceStateAdvanced(w) => Some(Some(w.transition.current())),
            _ => None,
        },
        _ => None,
    }
}

fn final_state_of(events: &[EventEnvelope]) -> (r: Option<WorkspaceState>)
    ensures
        opt_state_view(r) == session_final_state(envelope_views(events@)),
{
    let ghost ev = envelope_views(events@);
    let mut declared: Option<&WorkspaceState> = None;
    let mut i: usize = 0;
    while i < events.len()
        invariant
            i <= events@.len(),
            ev == envelope_views(events@),
            match declared {
                Some(s) => last_declared_state(ev, i as int) == Some(s@),
                None => last_declared_state(ev, i as int) is None,
            },
        decreases events@.len() - i,
    {
        assert(ev[i as int] == events@[i as int]@);
        match declared_state_of(&events[i]) {
            Some(s) => {
                declared = s;
            },
            None => {},
        }
        i = i + 1;
    }
    match declared {
        Some(s) => return Some(s.duplicate()),
        None => {},
    }
    let mut advanced: Option<&WorkspaceState> = None;
    let mut k: usize = 0;
    while k < events.len()
        invariant
            k <= events@.len(),
            ev == envelope_views(events@),
            match advanced {
                Some(s) => last_advanced_state(ev, k as int) == Some(s@),
                None => last_advanced_state(ev, k as int) is None,
            },
        decreases events@.len() - k,
    {
        assert(ev[k as int] == events@[k as int]@);
        match events[k].observation() {
            Observation::Runtime(rt) => match rt.kind() {
                RuntimeObservationKind::WorkspaceStateAdvanced(w) => {
                    advanced = Some(w.transition.current());
                },
                _ => {},
            },
            _ => {},
        }
        k = k + 1;
    }
    match advanced {
        Some(s) => Some(s.duplicate()),
        None => None,
    }
}

fn any_gap(events: &[EventEnvelope]) -> (r: bool)
    ensures
        r == exists|i: int| 0 <= i < events@.len() && is_gap(#[trigger] envelope_views(events@)[i]),
{
    let ghost ev = envelope_views(events@);
    let mut i: usize = 0;
    while i < events.len()
        invariant
            i <= events@.len(),
            ev == envelope_views(events@),
            forall|k: int| 0 <= k < i ==> !is_gap(#[trigger] ev[k]),
        decreases events@.len() - i,
    {
        assert(ev[i as int] == events@[i as int]@);
        match events[i].observation() {
            Observation::Runtime(rt) => match rt.kind() {
                RuntimeObservationKind::ObservationGap(_) => {
                    return true;
                },
                _ => {},
            },
            _ => {},
        }
        i = i + 1;
    }
    false
}

fn is_workspace_gap_event(e: &EventEnvelope) -> (r: bool)
    ensures
        r == is_workspace_gap(e@),
{
    match e.observation() {
        Observation::Runtime(rt) => match rt.kind() {
            RuntimeObservationKind::ObservationGap(g) => match g.scope {
                GapScope::WorkspaceState => true,
                GapScope::FileSystem => true,
                _ => false,
            },
            _ => false,
        },
        _ => false,
    }
}

/// `starts` maps each process whose last start or exit among the first `j` events is a
/// start to the index of that start.
pub open spec fn open_starts(ev: Seq<EnvelopeView>, j: int, starts: Map<u128, usize>) -> bool {
    &&& forall|pid: u128| #[trigger] starts.contains_key(pid) <==> {
        let i = last_mention_before(ev, j, pid);
        i >= 0 && started_pid(ev[i]) == Some(pid)
    }
    &&& forall|pid: u128| #[trigger] starts.contains_key(pid) ==> starts[pid] == last_mention_before(ev, j, pid)
}

proof fn lemma_last_mention_below(ev: Seq<EnvelopeView>, j: int, pid: u128)
    ensures
        -1 <= last_mention_before(ev, j, pid) < if j > 0 { j } else { 0 },
    decreases j,
{
    if j > 0 {
        lemma_last_mention_below(ev, j - 1, pid);
    }
}

/// The passing check found at exit index `j`, if the exit ends a passing cargo check.
fn passing_at(events: &[EventEnvelope], j: usize, start: Option<usize>) -> (r: Option<(CargoValidationKind, usize)>)
    requires
        j < events@.len(),
        match start {
            Some(i) => matched_start(envelope_views(events@), j as int) == Some(i as int) && i < j,
            None => matched_start(envelope_views(events@), j as int) is None,
        },
    ensures
        r is Some <==> passing_check_exit(envelope_views(events@), j as int),
        r matches Some((kind, i)) ==> matched_start(envelope_views(events@), j as int) == Some(i as int) && i < j
            && classify(started_command(envelope_views(events@)[i as int])) == Some(kind),
{
    let ghost ev = envelope_views(events@);
    let i = match start {
        Some(i) => i,
        None => return None,
    };
    assert(ev[i as int] == events@[i as int]@);
    assert(ev[j as int] == events@[j as int]@);
    let command = match events[i].observation() {
        Observation::Runtime(rt) => match rt.kind() {
            RuntimeObservationKind::ProcessStarted(p) => &p.command,
            _ => return None,
        },
        _ => return None,
    };
    let termination = match events[j].observation() {
        Observation::Runtime(rt) => match rt.kind() {
            RuntimeObservationKind::ProcessExited(p) => p.termination,
            _ => return None,
        },
        _ => return None,
    };
    match classify_cargo_validation(command, &termination) {
        Some(v) => if v.is_passing {
            Some((v.kind, i))
        } else {
            None
        },
        None => None,
    }
}

/// Builds the validation report of a session from its events.
pub fn build_validation_report(session_id: SessionId, events: &[EventEnvelope]) -> (r: ValidationReport)
    ensures
        r@ == validation_report(session_id@, envelope_views(events@)),
{
    let ghost ev = envelope_views(events@);
    let final_state = final_state_of(events);
    let has_any_gap = any_gap(events);
    let continuity = if has_any_gap {
        EvidenceContinuity::GapObserved
    } else {
        EvidenceContinuity::Complete
    };

    // The last passing check. `starts` pairs each exit with the start of its process.
    let mut starts: HashMap<u128, usize> = HashMap::new();
    let mut best: Option<(usize, CargoValidationKind, usize)> = None;
    let mut best_seq: u64 = 0;
    let mut j: usize = 0;
    while j < events.len()
        invariant
            j <= events@.len(),
            ev == envelope_views(events@),
            open_starts(ev, j as int, starts@),
            match best {
                Some((b, kind, i)) => best_passing(ev, j as int) == Some(b as int) && b < j && i < b
                    && matched_start(ev, b as int) == Some(i as int)
                    && classify(started_command(ev[i as int])) == Some(kind)
                    && best_seq == ev[b as int].sequence,
                None => best_passing(ev, j as int) is None && best_seq == 0,
            },
        decreases events@.len() - j,
    {
        assert(ev[j as int] == events@[j as int]@);
        let start: Option<usize> = match events[j].observation() {
            Observation::Runtime(rt) => match rt.kind() {
                RuntimeObservationKind::ProcessExited(p) => {
                    let key = p.process_id.as_u128();
                    match starts.get(&key) {
                        Some(i) => Some(*i),
                        None => None,
                    }
                },
                _ => None,
            },
            _ => None,
        };
        proof {
            if let Some(pid) = exited_pid(ev[j as int]) {
                lemma_last_mention_below(ev, j as int, pid);
            }
        }
        match passing_at(events, j, start) {
            Some((kind, i)) => {
                let seq = events[j].sequence().value();
                if seq > best_seq {
                    best = Some((j, kind, i));
                    best_seq = seq;
                }
            },
            None => {},
        }
        let ghost before = starts@;
        match events[j].observation() {
            Observation::Runtime(rt) => match rt.kind() {
                RuntimeObservationKind::ProcessStarted(p) => {
                    starts.insert(p.process_id.as_u128(), j);
                },
                RuntimeObservationKind::ProcessExited(p) => {
                    let key = p.process_id.as_u128();
                    starts.remove(&key);
                },
                _ => {},
            },
            _ => {},
        }
        proof {
            assert forall|pid: u128| #[trigger] last_mention_before(ev, j + 1, pid) == if mentions(ev[j as int], pid) {
                j as int
            } else {
                last_mention_before(ev, j as int, pid)
            } by {}
            assert forall|pid: u128| #[trigger] starts@.contains_key(pid) == before.contains_key(pid)
                || mentions(ev[j as int], pid) by {}
        }
        j = j + 1;
    }

    let (last_passing, gap_after_last) = match best {
        Some((b, kind, i)) => {
            assert(ev[b as int] == events@[b as int]@);
            assert(ev[i as int] == events@[i as int]@);
            let start_state = match events[i].observation() {
                Observation::Runtime(rt) => match rt.kind() {
                    RuntimeObservationKind::ProcessStarted(p) => p.workspace_state.as_ref(),
                    _ => None,
                },
                _ => None,
            };
            let validated_state = match start_state {
                Some(s) => Some(s.duplicate()),
                None => match &final_state {
                    Some(f) => Some(f.duplicate()),
                    None => None,
                },
            };
            // A file-system or workspace gap after the last passing check.
            let mut gap = false;
            let mut g: usize = b + 1;
            while g < events.len()
                invariant
                    b < events@.len(),
                    b + 1 <= g <= events@.len(),
                    ev == envelope_views(events@),
                    best_seq == ev[b as int].sequence,
                    gap == exists|x: int| b < x < g && is_workspace_gap(#[trigger] ev[x]) && ev[x].sequence > ev[b as int].sequence,
                decreases events@.len() - g,
            {
                assert(ev[g as int] == events@[g as int]@);
                if is_workspace_gap_event(&events[g]) && events[g].sequence().value() > best_seq {
                    gap = true;
                }
                g = g + 1;
            }
            let passing = PassingValidation {
                kind,
                rule_version: CARGO_VALIDATION_RULE_VERSION,
                event_id: events[b].event_id(),
                sequence: events[b].sequence().value(),
                validated_state,
            };
            (Some(passing), gap)
        },
        None => (None, false),
    };

    let freshness = match &last_passing {
        Some(passing) => match (&passing.validated_state, &final_state) {
            (Some(vs), Some(fs)) => if gap_after_last {
                EvidenceFreshness::Indeterminate
            } else {
                assess_validation_freshness(vs, Some(fs), continuity)
            },
            (None, Some(_)) => if has_any_gap {
                EvidenceFreshness::Indeterminate
            } else {
                EvidenceFreshness::Current
            },
            _ => EvidenceFreshness::Indeterminate,
        },
        None => EvidenceFreshness::Indeterminate,
    };

    ValidationReport {
        session_id,
        final_state,
        last_passing,
        freshness,
        continuity,
        has_gap_after_validation: gap_after_last,
    }
}

pub open spec fn passing_line(p: Option<PassingValidationView>) -> Seq<char> {
    match p {
        Some(p) => "last passing: "@ + p.kind.spec_name() + " rule v"@ + decimal(p.rule_version as nat)
            + " event "@ + hex32(p.event_id) + " seq="@ + decimal(p.sequence as nat) + "\n"@,
        None => "last passing: none\n"@,
    }
}

pub open spec fn final_state_line(s: Option<WorkspaceStateView>) -> Seq<char> {
    match s {
        Some(s) => "final workspace generation: "@ + decimal(s.generation as nat) + "\n"@,
        None => "final workspace: none\n"@,
    }
}

pub open spec fn assessment_lines(r: ValidationReportView) -> Seq<char> {
    "freshness: "@ + r.freshness.spec_name() + "\n"@ + "continuity: "@ + r.continuity.spec_name() + "\n"@
        + if r.has_gap_after_validation {
        "gap after validation: true\n"@
    } else {
        Seq::empty()
    }
}

/// The human-readable rendering of a validation report.
pub open spec fn validation_human(r: ValidationReportView) -> Seq<char> {
    "session "@ + hex32(r.session_id) + "\n"@ + passing_line(r.last_passing) + final_state_line(r.final_state)
        + assessment_lines(r)
}

fn render_passing_line(passing: &Option<PassingValidation>) -> (r: String)
    ensures
        r@ == passing_line(match passing {
            Some(p) => Some(p@),
            None => None,
        }),
{
    match passing {
        Some(passing) => {
            let mut out = string_of("last passing: ");
            let k = passing.kind.name();
            push_str(&mut out, k.as_str());
            push_str(&mut out, " rule v");
            push_decimal(&mut out, passing.rule_version as u128);
            push_str(&mut out, " event ");
            push_hex32(&mut out, passing.event_id.as_u128());
            push_str(&mut out, " seq=");
            push_decimal(&mut out, passing.sequence as u128);
            push_str(&mut out, "\n");
            assert(out@ =~= passing_line(Some(passing@)));
            out
        },
        None => string_of("last passing: none\n"),
    }
}

fn render_final_state_line(state: &Option<WorkspaceState>) -> (r: String)
    ensures
        r@ == final_state_line(opt_state_view(*state)),
{
    match state {
        Some(fs) => {
            let mut out = string_of("final workspace generation: ");
            push_decimal(&mut out, fs.generation().value() as u128);
            push_str(&mut out, "\n");
            assert(out@ =~= final_state_line(opt_state_view(*state)));
            out
        },
        None => string_of("final workspace: none\n"),
    }
}

fn render_assessment_lines(report: &ValidationReport) -> (r: String)
    ensures
        r@ == assessment_lines(report@),
{
    let mut out = string_of("freshness: ");
    let f = report.freshness.name();
    push_str(&mut out, f.as_str());
    push_str(&mut out, "\n");
    push_str(&mut out, "continuity: ");
    let c = report.continuity.name();
    push_str(&mut out, c.as_str());
    push_str(&mut out, "\n");
    if report.has_gap_after_validation {
        push_str(&mut out, "gap after validation: true\n");
    }
    assert(out@ =~= assessment_lines(report@));
    out
}

/// Renders a validation report for people to read.
pub fn format_validation_human(report: &ValidationReport) -> (r: String)
    ensures
        r@ == validation_human(report@),
{
    let mut out = string_of("session ");
    push_hex32(&mut out, report.session_id.as_u128());
    push_str(&mut out, "\n");
    let a = render_passing_line(&report.last_passing);
    push_str(&mut out, a.as_str());
    let b = render_final_state_line(&report.final_state);
    push_str(&mut out, b.as_str());
    let c = render_assessment_lines(report);
    push_str(&mut out, c.as_str());
    assert(out@ =~= validation_human(report@));
    out
}


// ---------------------------------------------------------------------------
// The output document of a report
// ---------------------------------------------------------------------------

/// The passing check of a report, as output.
pub struct LastPassingDto {
    pub kind: String,
    pub rule_version: u32,
    pub event_id: String,
    pub sequence: u64,
}

/// A validation report, as output, with the exit event of its passing check.
pub struct ValidationJson {
    pub output_schema_version: u16,
    pub session_id: String,
    pub freshness: String,
    pub continuity: String,
    pub final_workspace_generation: Option<u64>,
    pub last_passing: Option<LastPassingDto>,
    pub events: Vec<crate::timeline::EventDto>,
}

/// The events a report's document lists: the process exit of its passing check.
pub open spec fn validation_events(last_passing: Option<u128>, events: Seq<EnvelopeView>) -> Seq<EnvelopeView>
    decreases events.len(),
{
    if events.len() == 0 {
        Seq::empty()
    } else {
        let rest = validation_events(last_passing, events.drop_last());
        let e = events.last();
        if last_passing == Some(e.event_id) && exited_pid(e) is Some {
            rest.push(e)
        } else {
            rest
        }
    }
}

pub open spec fn passing_event_id(r: ValidationReportView) -> Option<u128> {
    match r.last_passing {
        Some(p) => Some(p.event_id),
        None => None,
    }
}

/// What a report's document holds.
pub open spec fn validation_json_holds(d: ValidationJson, r: ValidationReportView, events: Seq<EnvelopeView>) -> bool {
    &&& d.output_schema_version == crate::timeline::OUTPUT_SCHEMA_VERSION
    &&& d.session_id@ == hex32(r.session_id)
    &&& d.freshness@ == r.freshness.spec_name()
    &&& d.continuity@ == r.continuity.spec_name()
    &&& d.final_workspace_generation == match r.final_state {
        Some(s) => Some(s.generation),
        None => None,
    }
    &&& match (d.last_passing, r.last_passing) {
        (Some(dp), Some(p)) => dp.kind@ == p.kind.spec_name() && dp.rule_version == p.rule_version && dp.event_id@
            == hex32(p.event_id) && dp.sequence == p.sequence,
        (None, None) => true,
        _ => false,
    }
    &&& crate::timeline::event_dto_views(d.events@) == crate::timeline::event_dtos(validation_events(passing_event_id(r), events))
}

/// The output document of a report over the session's events; turning it into JSON text is
/// left to the caller.
pub fn validation_document(report: &ValidationReport, events: &[EventEnvelope]) -> (r: ValidationJson)
    ensures
        validation_json_holds(r, report@, envelope_views(events@)),
{
    let passing_id: Option<u128> = match &report.last_passing {
        Some(p) => Some(p.event_id.as_u128()),
        None => None,
    };
    let ghost views = envelope_views(events@);
    let mut out: Vec<crate::timeline::EventDto> = Vec::new();
    let ghost mut chosen: Seq<EnvelopeView> = Seq::empty();
    assert(crate::timeline::event_dto_views(out@) =~= crate::timeline::event_dtos(chosen));
    let mut i: usize = 0;
    while i < events.len()
        invariant
            i <= events@.len(),
            views == envelope_views(events@),
            passing_id == passing_event_id(report@),
            chosen == validation_events(passing_id, views.subrange(0, i as int)),
            crate::timeline::event_dto_views(out@) == crate::timeline::event_dtos(chosen),
        decreases events@.len() - i,
    {
        let e = &events[i];
        let is_exit = match e.observation() {
            Observation::Runtime(rt) => match rt.kind() {
                RuntimeObservationKind::ProcessExited(_) => true,
                _ => false,
            },
            _ => false,
        };
        let keep = match passing_id {
            Some(id) => is_exit && e.event_id().as_u128() == id,
            None => false,
        };
        proof {
            let next = views.subrange(0, i + 1);
            assert(next.drop_last() =~= views.subrange(0, i as int));
            assert(next.last() == e@);
        }
        if keep {
            let ghost before = out@;
            let ghost old_chosen = chosen;
            let dto = crate::timeline::event_to_dto(e);
            out.push(dto);
            proof {
                assert(crate::timeline::event_dto_views(out@) =~= crate::timeline::event_dto_views(before).push(
                    crate::timeline::event_dto(e@),
                ));
                chosen = old_chosen.push(e@);
                assert(crate::timeline::event_dtos(chosen) =~= crate::timeline::event_dtos(old_chosen).push(
                    crate::timeline::event_dto(e@),
                ));
            }
        }
        i = i + 1;
    }
    assert(views.subrange(0, events@.len() as int) =~= views);
    let last_passing = match &report.last_passing {
        Some(p) => Some(
            LastPassingDto {
                kind: p.kind.name(),
                rule_version: p.rule_version,
                event_id: crate::text::hex32_string(p.event_id.as_u128()),
                sequence: p.sequence,
            },
        ),
        None => None,
    };
    let final_workspace_generation = match &report.final_state {
        Some(s) => Some(s.generation().value()),
        None => None,
    };
    ValidationJson {
        output_schema_version: crate::timeline::OUTPUT_SCHEMA_VERSION,
        session_id: crate::text::hex32_string(report.session_id.as_u128()),
        freshness: report.freshness.name(),
        continuity: report.continuity.name(),
        final_workspace_generation,
        last_passing,
        events: out,
    }
}

} // verus!
