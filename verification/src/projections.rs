//! Projections of a session: the processes, the file changes and the workspace states,
//! each the subsequence of the timeline that concerns it.

use vstd::prelude::*;
use crate::codec::{gap_reason_name, gap_scope_name, gap_reason_to_str, gap_scope_to_str, opt_hex32, outcome_name, outcome_to_str};
use crate::event::{
    EnvelopeView, EventEnvelope, FileMutationKind, FileMutationKindView, GapScope, Observation, ObservationView,
    RuntimeKindView, RuntimeObservationKind,
};
use crate::identity::SessionId;
use crate::native::{lossy_text, NativePath, NativeStringView, NativeEncoding};
use crate::store::envelope_views;
use crate::text::{decimal, hex32, push_decimal, push_hex32, push_str, string_of};
use crate::timeline::{
    debug_opt_text, debug_opt_u32, event_dto, event_to_dto, termination_label, EventDto, TimelineJson,
    TimelineJsonView, OUTPUT_SCHEMA_VERSION,
};

verus! {

/// The three projections of a session.
#[derive(Clone, Copy, Debug, PartialEq, Eq, Structural)]
pub enum ProjectionKind {
    Processes,
    Changes,
    State,
}

impl ProjectionKind {
    pub open spec fn spec_name(self) -> Seq<char> {
        match self {
            ProjectionKind::Processes => "processes"@,
            ProjectionKind::Changes => "changes"@,
            ProjectionKind::State => "state"@,
        }
    }

    /// The projection's name, as a command and as the label of its listing.
    pub fn name(self) -> (r: String)
        ensures
            r@ == self.spec_name(),
    {
        match self {
            ProjectionKind::Processes => string_of("processes"),
            ProjectionKind::Changes => string_of("changes"),
            ProjectionKind::State => string_of("state"),
        }
    }
}

/// Whether an event belongs to a projection: process starts and exits and process-tree
/// gaps; file mutations and file-system gaps; workspace advances and workspace-state gaps.
pub open spec fn belongs(kind: ProjectionKind, e: EnvelopeView) -> bool {
    match e.observation {
        ObservationView::Runtime(r) => match r.kind {
            RuntimeKindView::ProcessStarted(_) => kind == ProjectionKind::Processes,
            RuntimeKindView::ProcessExited(_) => kind == ProjectionKind::Processes,
            RuntimeKindView::FileMutationObserved(_) => kind == ProjectionKind::Changes,
            RuntimeKindView::WorkspaceStateAdvanced(_) => kind == ProjectionKind::State,
            RuntimeKindView::ObservationGap(g) => match kind {
                ProjectionKind::Processes => g.scope == GapScope::ProcessTree,
                ProjectionKind::Changes => g.scope == GapScope::FileSystem,
                ProjectionKind::State => g.scope == GapScope::WorkspaceState,
            },
        },
        ObservationView::SessionEnded(_) => false,
        ObservationView::SessionStarted(_) => false,
    }
}

/// The events of a projection, in timeline order.
pub open spec fn selected(kind: ProjectionKind, events: Seq<EnvelopeView>) -> Seq<EnvelopeView>
    decreases events.len(),
{
    if events.len() == 0 {
        Seq::empty()
    } else {
        let rest = selected(kind, events.drop_last());
        if belongs(kind, events.last()) {
            rest.push(events.last())
        } else {
            rest
        }
    }
}

pub open spec fn ref_views(s: Seq<&EventEnvelope>) -> Seq<EnvelopeView> {
    s.map_values(|e: &EventEnvelope| e@)
}

fn event_belongs(kind: ProjectionKind, event: &EventEnvelope) -> (r: bool)
    ensures
        r == belongs(kind, event@),
{
    match event.observation() {
        Observation::Runtime(rt) => match rt.kind() {
            RuntimeObservationKind::ProcessStarted(_) => kind == ProjectionKind::Processes,
            RuntimeObservationKind::ProcessExited(_) => kind == ProjectionKind::Processes,
            RuntimeObservationKind::FileMutationObserved(_) => kind == ProjectionKind::Changes,
            RuntimeObservationKind::WorkspaceStateAdvanced(_) => kind == ProjectionKind::State,
            RuntimeObservationKind::ObservationGap(gap) => match kind {
                ProjectionKind::Processes => gap.scope == GapScope::ProcessTree,
                ProjectionKind::Changes => gap.scope == GapScope::FileSystem,
                ProjectionKind::State => gap.scope == GapScope::WorkspaceState,
            },
        },
        Observation::SessionEnded(_) => false,
        Observation::SessionStarted(_) => false,
    }
}

/// The events of a projection, in timeline order.
pub fn filter_projection(kind: ProjectionKind, events: &[EventEnvelope]) -> (r: Vec<&EventEnvelope>)
    ensures
        ref_views(r@) == selected(kind, envelope_views(events@)),
{
    let ghost views = envelope_views(events@);
    let mut out: Vec<&EventEnvelope> = Vec::new();
    let mut i: usize = 0;
    while i < events.len()
        invariant
            i <= events@.len(),
            views == envelope_views(events@),
            ref_views(out@) == selected(kind, views.subrange(0, i as int)),
        decreases events@.len() - i,
    {
        let e = &events[i];
        let keep = event_belongs(kind, e);
        let ghost before = out@;
        if keep {
            out.push(e);
        }
        proof {
            let next = views.subrange(0, i + 1);
            assert(next.drop_last() =~= views.subrange(0, i as int));
            assert(next.last() == events@[i as int]@);
            if keep {
                assert(ref_views(out@) =~= ref_views(before).push(e@));
            } else {
                assert(ref_views(out@) =~= ref_views(before));
            }
        }
        i = i + 1;
    }
    assert(views.subrange(0, events@.len() as int) =~= views);
    out
}

/// Process starts and exits, and process-tree gaps.
pub fn filter_processes(events: &[EventEnvelope]) -> (r: Vec<&EventEnvelope>)
    ensures
        ref_views(r@) == selected(ProjectionKind::Processes, envelope_views(events@)),
{
    filter_projection(ProjectionKind::Processes, events)
}

/// File mutations and file-system gaps.
pub fn filter_changes(events: &[EventEnvelope]) -> (r: Vec<&EventEnvelope>)
    ensures
        ref_views(r@) == selected(ProjectionKind::Changes, envelope_views(events@)),
{
    filter_projection(ProjectionKind::Changes, events)
}

/// Workspace advances, workspace-state gaps and the end of the session.
pub fn filter_state(events: &[EventEnvelope]) -> (r: Vec<&EventEnvelope>)
    ensures
        ref_views(r@) == selected(ProjectionKind::State, envelope_views(events@)),
{
    filter_projection(ProjectionKind::State, events)
}

// ---------------------------------------------------------------------------
// Human-readable listings
// ---------------------------------------------------------------------------

/// Debug rendering of a list of bytes: `[1, 2, 3]`.
pub open spec fn debug_bytes(b: Seq<u8>) -> Seq<char>
    decreases b.len(),
{
    if b.len() == 0 {
        "[]"@
    } else {
        debug_byte_items(b) + "]"@
    }
}

/// `[` followed by the bytes separated by `, `.
pub open spec fn debug_byte_items(b: Seq<u8>) -> Seq<char>
    decreases b.len(),
{
    if b.len() == 0 {
        "["@
    } else if b.len() == 1 {
        "["@ + decimal(b[0] as nat)
    } else {
        debug_byte_items(b.drop_last()) + ", "@ + decimal(b.last() as nat)
    }
}

pub open spec fn encoding_debug(e: NativeEncoding) -> Seq<char> {
    match e {
        NativeEncoding::UnixBytes => "UnixBytes"@,
        NativeEncoding::WindowsWtf16LittleEndian => "WindowsWtf16LittleEndian"@,
    }
}

/// Debug rendering of a native path, field by field.
pub open spec fn debug_path(v: NativeStringView) -> Seq<char> {
    "NativePath { inner: NativeString { encoding: "@ + encoding_debug(v.encoding) + ", units: "@ + debug_bytes(
        v.units,
    ) + " } }"@
}

/// Debug rendering of a file mutation kind.
pub open spec fn debug_mutation_kind(k: FileMutationKindView) -> Seq<char> {
    match k {
        FileMutationKindView::Created => "Created"@,
        FileMutationKindView::Modified => "Modified"@,
        FileMutationKindView::Deleted => "Deleted"@,
        FileMutationKindView::Renamed { from } => "Renamed { from: "@ + debug_path(from) + " }"@,
    }
}

/// The one-line summary of an event in a projection listing.
pub open spec fn event_summary(e: EnvelopeView) -> Seq<char> {
    match e.observation {
        ObservationView::Runtime(r) => match r.kind {
            RuntimeKindView::ProcessStarted(p) => "ProcessStarted id="@ + hex32(p.process_id) + " parent="@
                + debug_opt_text(opt_hex32(p.parent_process_id)) + " pid="@ + debug_opt_u32(p.operating_system_pid)
                + " exe="@ + lossy_text(p.command.executable),
            RuntimeKindView::ProcessExited(p) => "ProcessExited id="@ + hex32(p.process_id) + " "@
                + termination_label(p.termination),
            RuntimeKindView::FileMutationObserved(f) => "FileMutation "@ + debug_mutation_kind(f.kind) + " "@
                + lossy_text(f.path),
            RuntimeKindView::WorkspaceStateAdvanced(w) => "WorkspaceStateAdvanced "@ + decimal(
                w.transition.previous.generation as nat,
            ) + " -> "@ + decimal(w.transition.current.generation as nat),
            RuntimeKindView::ObservationGap(g) => "Gap "@ + gap_scope_name(g.scope) + " "@ + gap_reason_name(g.reason)
                + " "@ + g.detail,
        },
        ObservationView::SessionStarted(s) => "SessionStarted exe="@ + lossy_text(s.command.executable),
        ObservationView::SessionEnded(s) => "SessionEnded "@ + outcome_name(s.outcome),
    }
}

/// The listing line of an event.
pub open spec fn listing_line(e: EnvelopeView) -> Seq<char> {
    "  "@ + hex32(e.event_id) + " seq="@ + decimal(e.sequence as nat) + " "@ + event_summary(e) + "\n"@
}

pub open spec fn listing_lines(events: Seq<EnvelopeView>) -> Seq<char>
    decreases events.len(),
{
    if events.len() == 0 {
        Seq::empty()
    } else {
        listing_lines(events.drop_last()) + listing_line(events.last())
    }
}

/// The human-readable listing of a projection.
pub open spec fn projection_human(kind: ProjectionKind, session_id: u128, events: Seq<EnvelopeView>) -> Seq<char> {
    let chosen = selected(kind, events);
    "session "@ + hex32(session_id) + "\n"@ + kind.spec_name() + ": "@ + decimal(chosen.len()) + " events\n"@
        + listing_lines(chosen)
}

fn push_debug_bytes(out: &mut String, bytes: &[u8])
    ensures
        final(out)@ == old(out)@ + debug_bytes(bytes@),
{
    let ghost start = out@;
    push_str(out, "[");
    proof {
        reveal_strlit("[");
        assert(out@ =~= start + debug_byte_items(bytes@.subrange(0, 0)));
    }
    let mut i: usize = 0;
    while i < bytes.len()
        invariant
            i <= bytes@.len(),
            out@ == start + debug_byte_items(bytes@.subrange(0, i as int)),
        decreases bytes@.len() - i,
    {
        let ghost before = out@;
        if i > 0 {
            push_str(out, ", ");
        }
        push_decimal(out, bytes[i] as u128);
        proof {
            let next = bytes@.subrange(0, i + 1);
            assert(next.drop_last() =~= bytes@.subrange(0, i as int));
            if i == 0 {
                reveal_strlit("[");
                assert(out@ =~= start + debug_byte_items(next));
            } else {
                assert(out@ =~= start + debug_byte_items(next));
            }
        }
        i = i + 1;
    }
    assert(bytes@.subrange(0, bytes@.len() as int) =~= bytes@);
    push_str(out, "]");
    proof {
        reveal_strlit("[");
        reveal_strlit("]");
        reveal_strlit("[]");
        assert(final(out)@ =~= old(out)@ + debug_bytes(bytes@));
    }
}

fn push_debug_path(out: &mut String, path: &NativePath)
    ensures
        final(out)@ == old(out)@ + debug_path(path@),
{
    push_str(out, "NativePath { inner: NativeString { encoding: ");
    match path.encoding() {
        NativeEncoding::UnixBytes => push_str(out, "UnixBytes"),
        NativeEncoding::WindowsWtf16LittleEndian => push_str(out, "WindowsWtf16LittleEndian"),
    }
    push_str(out, ", units: ");
    push_debug_bytes(out, path.units());
    push_str(out, " } }");
    assert(final(out)@ =~= old(out)@ + debug_path(path@));
}

fn push_started_summary(out: &mut String, event: &EventEnvelope, ps: &crate::event::ProcessStarted)
    requires
        event@.observation matches ObservationView::Runtime(r) && r.kind == RuntimeKindView::ProcessStarted(ps@),
    ensures
        final(out)@ == old(out)@ + event_summary(event@),
{
    push_str(out, "ProcessStarted id=");
    push_hex32(out, ps.process_id.as_u128());
    push_str(out, " parent=");
    let parent = match ps.parent_process_id {
        Some(p) => Some(p.as_u128()),
        None => None,
    };
    crate::timeline::push_debug_opt_hex(out, parent);
    let ghost b = out@;
    push_str(out, " pid=");
    match ps.operating_system_pid {
        Some(n) => {
            push_str(out, "Some(");
            push_decimal(out, n as u128);
            push_str(out, ")");
        },
        None => push_str(out, "None"),
    }
    assert(out@ =~= b + " pid="@ + debug_opt_u32(ps@.operating_system_pid));
    push_str(out, " exe=");
    let exe = ps.command.executable().to_string_lossy();
    push_str(out, exe.as_str());
    assert(final(out)@ =~= old(out)@ + event_summary(event@));
}

fn push_exited_summary(out: &mut String, event: &EventEnvelope, pe: &crate::event::ProcessExited)
    requires
        event@.observation matches ObservationView::Runtime(r) && r.kind == RuntimeKindView::ProcessExited(pe@),
    ensures
        final(out)@ == old(out)@ + event_summary(event@),
{
    push_str(out, "ProcessExited id=");
    push_hex32(out, pe.process_id.as_u128());
    push_str(out, " ");
    let ghost a = out@;
    match pe.termination {
        crate::event::ProcessTermination::ExitCode(c) => {
            push_str(out, "ExitCode(");
            crate::text::push_signed_decimal(out, c as i128);
            push_str(out, ")");
        },
        crate::event::ProcessTermination::Signal(s) => {
            push_str(out, "Signal(");
            crate::text::push_signed_decimal(out, s as i128);
            push_str(out, ")");
        },
        crate::event::ProcessTermination::Unknown => push_str(out, "Unknown"),
    }
    assert(out@ =~= a + termination_label(pe@.termination));
    assert(final(out)@ =~= old(out)@ + event_summary(event@));
}

fn push_mutation_summary(out: &mut String, event: &EventEnvelope, fm: &crate::event::FileMutationObserved)
    requires
        event@.observation matches ObservationView::Runtime(r) && r.kind == RuntimeKindView::FileMutationObserved(fm@),
    ensures
        final(out)@ == old(out)@ + event_summary(event@),
{
    push_str(out, "FileMutation ");
    let ghost a = out@;
    match &fm.kind {
        FileMutationKind::Created => push_str(out, "Created"),
        FileMutationKind::Modified => push_str(out, "Modified"),
        FileMutationKind::Deleted => push_str(out, "Deleted"),
        FileMutationKind::Renamed { from } => {
            push_str(out, "Renamed { from: ");
            push_debug_path(out, from);
            push_str(out, " }");
        },
    }
    assert(out@ =~= a + debug_mutation_kind(fm@.kind));
    push_str(out, " ");
    let p = fm.path.to_string_lossy();
    push_str(out, p.as_str());
    assert(final(out)@ =~= old(out)@ + event_summary(event@));
}

fn push_runtime_summary(out: &mut String, event: &EventEnvelope, kind: &RuntimeObservationKind)
    requires
        event@.observation matches ObservationView::Runtime(r) && r.kind == kind@,
    ensures
        final(out)@ == old(out)@ + event_summary(event@),
{
    match kind {
        RuntimeObservationKind::ProcessStarted(ps) => push_started_summary(out, event, ps),
        RuntimeObservationKind::ProcessExited(pe) => push_exited_summary(out, event, pe),
        RuntimeObservationKind::FileMutationObserved(fm) => push_mutation_summary(out, event, fm),
        RuntimeObservationKind::WorkspaceStateAdvanced(wsa) => {
            push_str(out, "WorkspaceStateAdvanced ");
            push_decimal(out, wsa.transition.previous().generation().value() as u128);
            push_str(out, " -> ");
            push_decimal(out, wsa.transition.current().generation().value() as u128);
            assert(final(out)@ =~= old(out)@ + event_summary(event@));
        },
        RuntimeObservationKind::ObservationGap(gap) => {
            push_str(out, "Gap ");
            let s = gap_scope_to_str(gap.scope);
            push_str(out, s.as_str());
            push_str(out, " ");
            let r = gap_reason_to_str(gap.reason);
            push_str(out, r.as_str());
            push_str(out, " ");
            push_str(out, gap.detail.as_str());
            assert(final(out)@ =~= old(out)@ + event_summary(event@));
        },
    }
}

/// Appends the one-line summary of an event.
fn push_event_summary(out: &mut String, event: &EventEnvelope)
    ensures
        final(out)@ == old(out)@ + event_summary(event@),
{
    match event.observation() {
        Observation::Runtime(rt) => push_runtime_summary(out, event, rt.kind()),
        Observation::SessionStarted(ss) => {
            push_str(out, "SessionStarted exe=");
            let exe = ss.command().executable().to_string_lossy();
            push_str(out, exe.as_str());
            assert(final(out)@ =~= old(out)@ + event_summary(event@));
        },
        Observation::SessionEnded(se) => {
            push_str(out, "SessionEnded ");
            let o = outcome_to_str(se.outcome());
            push_str(out, o.as_str());
            assert(final(out)@ =~= old(out)@ + event_summary(event@));
        },
    }
}

/// The one-line summary of an event in a projection listing.
pub fn human_summary_for_event(event: &EventEnvelope) -> (r: String)
    ensures
        r@ == event_summary(event@),
{
    let mut out = String::new();
    push_event_summary(&mut out, event);
    assert(out@ =~= event_summary(event@));
    out
}

/// The human-readable listing of one projection of a session.
pub fn format_projection_human(kind: ProjectionKind, session_id: SessionId, events: &[EventEnvelope]) -> (r: String)
    ensures
        r@ == projection_human(kind, session_id@, envelope_views(events@)),
{
    let filtered = filter_projection(kind, events);
    let ghost chosen = ref_views(filtered@);
    let mut out = string_of("session ");
    push_hex32(&mut out, session_id.as_u128());
    push_str(&mut out, "\n");
    let name = kind.name();
    push_str(&mut out, name.as_str());
    push_str(&mut out, ": ");
    push_decimal(&mut out, filtered.len() as u128);
    push_str(&mut out, " events\n");
    let ghost head = out@;
    let mut i: usize = 0;
    while i < filtered.len()
        invariant
            i <= filtered@.len(),
            chosen == ref_views(filtered@),
            out@ == head + listing_lines(chosen.subrange(0, i as int)),
        decreases filtered@.len() - i,
    {
        let event = filtered[i];
        let ghost before = out@;
        push_str(&mut out, "  ");
        push_hex32(&mut out, event.event_id().as_u128());
        push_str(&mut out, " seq=");
        push_decimal(&mut out, event.sequence().value() as u128);
        push_str(&mut out, " ");
        push_event_summary(&mut out, event);
        push_str(&mut out, "\n");
        proof {
            let next = chosen.subrange(0, i + 1);
            assert(next.drop_last() =~= chosen.subrange(0, i as int));
            assert(next.last() == event@);
            assert(out@ =~= before + listing_line(event@));
        }
        i = i + 1;
    }
    assert(chosen.subrange(0, filtered@.len() as int) =~= chosen);
    assert(out@ =~= projection_human(kind, session_id@, envelope_views(events@)));
    out
}

pub fn format_processes_human(session_id: SessionId, events: &[EventEnvelope]) -> (r: String)
    ensures
        r@ == projection_human(ProjectionKind::Processes, session_id@, envelope_views(events@)),
{
    format_projection_human(ProjectionKind::Processes, session_id, events)
}

pub fn format_changes_human(session_id: SessionId, events: &[EventEnvelope]) -> (r: String)
    ensures
        r@ == projection_human(ProjectionKind::Changes, session_id@, envelope_views(events@)),
{
    format_projection_human(ProjectionKind::Changes, session_id, events)
}

pub fn format_state_human(session_id: SessionId, events: &[EventEnvelope]) -> (r: String)
    ensures
        r@ == projection_human(ProjectionKind::State, session_id@, envelope_views(events@)),
{
    format_projection_human(ProjectionKind::State, session_id, events)
}

/// The output document of one projection of a session; turning it into JSON text is left
/// to the caller.
pub fn projection_document(kind: ProjectionKind, session_id: SessionId, events: &[EventEnvelope]) -> (r: TimelineJson)
    ensures
        r@ == (TimelineJsonView {
            output_schema_version: OUTPUT_SCHEMA_VERSION,
            session_id: hex32(session_id@),
            events: crate::timeline::event_dtos(selected(kind, envelope_views(events@))),
        }),
{
    let filtered = filter_projection(kind, events);
    let ghost chosen = ref_views(filtered@);
    let mut out: Vec<EventDto> = Vec::new();
    let mut i: usize = 0;
    while i < filtered.len()
        invariant
            i <= filtered@.len(),
            chosen == ref_views(filtered@),
            out@.len() == i,
            forall|k: int| 0 <= k < i ==> (#[trigger] out@[k])@ == event_dto(chosen[k]),
        decreases filtered@.len() - i,
    {
        out.push(event_to_dto(filtered[i]));
        i = i + 1;
    }
    let r = TimelineJson {
        output_schema_version: OUTPUT_SCHEMA_VERSION,
        session_id: crate::text::hex32_string(session_id.as_u128()),
        events: out,
    };
    assert(r@.events =~= crate::timeline::event_dtos(chosen));
    r
}


/// A projection holds only events of its kind, each taken from the timeline, and no more
/// of them than the timeline holds.
pub proof fn lemma_projection_is_drawn_from_timeline(kind: ProjectionKind, events: Seq<EnvelopeView>)
    ensures
        selected(kind, events).len() <= events.len(),
        forall|i: int|
            0 <= i < selected(kind, events).len() ==> belongs(kind, #[trigger] selected(kind, events)[i])
                && events.contains(selected(kind, events)[i]),
    decreases events.len(),
{
    if events.len() > 0 {
        let rest = events.drop_last();
        lemma_projection_is_drawn_from_timeline(kind, rest);
        let sel = selected(kind, events);
        assert forall|i: int| 0 <= i < sel.len() implies belongs(kind, #[trigger] sel[i]) && events.contains(sel[i]) by {
            if i < selected(kind, rest).len() {
                assert(sel[i] == selected(kind, rest)[i]);
                let j = choose|j: int| 0 <= j < rest.len() && rest[j] == sel[i];
                assert(events[j] == rest[j]);
            } else {
                assert(sel[i] == events.last());
                assert(events[events.len() - 1] == events.last());
            }
        }
    }
}

/// Projecting a projection again changes nothing: a projection is rebuilt the same from
/// its own events.
pub proof fn lemma_projection_is_idempotent(kind: ProjectionKind, events: Seq<EnvelopeView>)
    ensures
        selected(kind, selected(kind, events)) == selected(kind, events),
    decreases events.len(),
{
    if events.len() > 0 {
        let rest = events.drop_last();
        lemma_projection_is_idempotent(kind, rest);
        let sel_rest = selected(kind, rest);
        if belongs(kind, events.last()) {
            let sel = sel_rest.push(events.last());
            assert(sel.drop_last() =~= sel_rest);
            assert(sel.last() == events.last());
        }
    }
}

/// The scope of the gaps that belong with a projection.
pub open spec fn projection_gap_scope(kind: ProjectionKind) -> GapScope {
    match kind {
        ProjectionKind::State => GapScope::WorkspaceState,
        ProjectionKind::Processes => GapScope::ProcessTree,
        ProjectionKind::Changes => GapScope::FileSystem,
    }
}

/// The events a projection is for: workspace advances in the state projection, process
/// starts and exits in the processes projection, file mutations in the changes projection,
/// and in each the gaps of its scope.
pub open spec fn projection_subject(kind: ProjectionKind, e: EnvelopeView) -> bool {
    e.observation matches ObservationView::Runtime(r) && {
        ||| r.kind matches RuntimeKindView::ObservationGap(g) && g.scope == projection_gap_scope(kind)
        ||| kind == ProjectionKind::State && r.kind is WorkspaceStateAdvanced
        ||| kind == ProjectionKind::Processes && (r.kind is ProcessStarted || r.kind is ProcessExited)
        ||| kind == ProjectionKind::Changes && r.kind is FileMutationObserved
    }
}

/// A projection holds nothing but the events it is for: no session start or end, and no
/// event of another projection.
pub proof fn lemma_projection_holds_only_its_subjects(kind: ProjectionKind, events: Seq<EnvelopeView>)
    ensures
        forall|a: int| 0 <= a < selected(kind, events).len() ==> projection_subject(kind, #[trigger] selected(kind, events)[a]),
{
    lemma_projection_is_drawn_from_timeline(kind, events);
}

proof fn lemma_selected_prefix(kind: ProjectionKind, events: Seq<EnvelopeView>, n: int, m: int)
    requires
        0 <= n <= m <= events.len(),
    ensures
        selected(kind, events.subrange(0, n)).len() <= selected(kind, events.subrange(0, m)).len(),
        selected(kind, events.subrange(0, m)).subrange(0, selected(kind, events.subrange(0, n)).len() as int)
            == selected(kind, events.subrange(0, n)),
    decreases m - n,
{
    if n < m {
        lemma_selected_prefix(kind, events, n, m - 1);
        assert(events.subrange(0, m).drop_last() =~= events.subrange(0, m - 1));
        let small = selected(kind, events.subrange(0, n));
        let mid = selected(kind, events.subrange(0, m - 1));
        let big = selected(kind, events.subrange(0, m));
        assert(big.subrange(0, small.len() as int) =~= mid.subrange(0, small.len() as int));
    } else {
        let sel = selected(kind, events.subrange(0, n));
        assert(sel.subrange(0, sel.len() as int) =~= sel);
    }
}

/// Where event `i`, a subject of the projection, stands in it: last of the projection of
/// the events up to it.
proof fn lemma_subject_is_selected(kind: ProjectionKind, events: Seq<EnvelopeView>, i: int)
    requires
        0 <= i < events.len(),
        projection_subject(kind, events[i]),
    ensures
        selected(kind, events.subrange(0, i + 1)) == selected(kind, events.subrange(0, i)).push(events[i]),
{
    assert(events.subrange(0, i + 1).drop_last() =~= events.subrange(0, i));
    assert(events.subrange(0, i + 1).last() == events[i]);
}

/// Every event a projection is for is in it, and two such events keep their timeline order.
pub proof fn lemma_projection_holds_its_subjects_in_order(
    kind: ProjectionKind,
    events: Seq<EnvelopeView>,
    i: int,
    k: int,
)
    requires
        0 <= i <= k < events.len(),
        projection_subject(kind, events[i]),
        projection_subject(kind, events[k]),
    ensures
        exists|a: int, b: int|
            0 <= a <= b < selected(kind, events).len() && (a < b <==> i < k) && #[trigger] selected(kind, events)[a]
                == events[i] && #[trigger] selected(kind, events)[b] == events[k],
{
    let n = events.len() as int;
    assert(events.subrange(0, n) =~= events);
    let all = selected(kind, events);
    lemma_subject_is_selected(kind, events, i);
    lemma_subject_is_selected(kind, events, k);
    lemma_selected_prefix(kind, events, i + 1, n);
    lemma_selected_prefix(kind, events, k + 1, n);
    let si = selected(kind, events.subrange(0, i + 1));
    let sk = selected(kind, events.subrange(0, k + 1));
    let a = si.len() - 1;
    let b = sk.len() - 1;
    assert(all.subrange(0, si.len() as int)[a] == all[a]);
    assert(all.subrange(0, sk.len() as int)[b] == all[b]);
    assert(all[a] == events[i]);
    assert(all[b] == events[k]);
    if i < k {
        lemma_selected_prefix(kind, events, i + 1, k);
        assert(selected(kind, events.subrange(0, k)).len() >= si.len());
        assert(a < b);
    }
}

} // verus!
