//! The timeline of a session: its events as records for JSON output and as human-readable
//! lines, and the reading of a session identifier typed by a user.

use vstd::prelude::*;
use crate::codec::{
    gap_reason_name, gap_scope_name, observation_dto, observation_to_dto, opt_hex32, outcome_name,
    source_kind_name, ObservationDto, ObservationDtoView,
};
use crate::event::{
    EnvelopeView, EventEnvelope, FileMutationKind, FileMutationKindView, Observation, ObservationSourceView,
    ObservationView, ProcessTermination, RuntimeKindView, RuntimeObservation, RuntimeObservationKind,
    RuntimeObservationView,
};
use crate::identity::SessionId;
use crate::native::{lossy_text, NativeStringView, NativeString};
use crate::state::{WorkspaceState, WorkspaceStateView};
use crate::store::envelope_views;
use crate::text::{
    contains_text, decimal, hex32, hex32_string, occurs_at, parse_hex, parse_hex_u128, push_char, push_decimal,
    push_hex32, push_signed_decimal, push_str, signed_decimal, string_of,
};
use crate::time::ObservationTimeView;
use crate::codec::{gap_reason_to_str, gap_scope_to_str, outcome_to_str, source_kind_to_str};

verus! {

/// The version of the timeline output format.
pub const OUTPUT_SCHEMA_VERSION: u16 = 1;

/// One event of a timeline, as output.
pub struct EventDto {
    pub schema_version: u16,
    pub event_id: String,
    pub session_id: String,
    pub sequence: u64,
    pub recorded_at: i64,
    pub observation: ObservationDto,
}

/// A session's events, as output.
pub struct TimelineJson {
    pub output_schema_version: u16,
    pub session_id: String,
    pub events: Vec<EventDto>,
}

pub struct EventDtoView {
    pub schema_version: u16,
    pub event_id: Seq<char>,
    pub session_id: Seq<char>,
    pub sequence: u64,
    pub recorded_at: i64,
    pub observation: ObservationDtoView,
}

pub struct TimelineJsonView {
    pub output_schema_version: u16,
    pub session_id: Seq<char>,
    pub events: Seq<EventDtoView>,
}

impl View for EventDto {
    type V = EventDtoView;

    open spec fn view(&self) -> EventDtoView {
        EventDtoView {
            schema_version: self.schema_version,
            event_id: self.event_id@,
            session_id: self.session_id@,
            sequence: self.sequence,
            recorded_at: self.recorded_at,
            observation: self.observation@,
        }
    }
}

pub open spec fn event_dto_views(s: Seq<EventDto>) -> Seq<EventDtoView> {
    s.map_values(|d: EventDto| d@)
}

impl View for TimelineJson {
    type V = TimelineJsonView;

    open spec fn view(&self) -> TimelineJsonView {
        TimelineJsonView {
            output_schema_version: self.output_schema_version,
            session_id: self.session_id@,
            events: event_dto_views(self.events@),
        }
    }
}

/// The output record of an event.
pub open spec fn event_dto(e: EnvelopeView) -> EventDtoView {
    EventDtoView {
        schema_version: e.schema_version,
        event_id: hex32(e.event_id),
        session_id: hex32(e.session_id),
        sequence: e.sequence,
        recorded_at: e.recorded_at,
        observation: observation_dto(e.observation),
    }
}

/// The output records of a list of events.
pub open spec fn event_dtos(events: Seq<EnvelopeView>) -> Seq<EventDtoView> {
    events.map_values(|e: EnvelopeView| event_dto(e))
}

/// The output document of a session and a list of its events.
pub open spec fn timeline_json(session_id: u128, events: Seq<EnvelopeView>) -> TimelineJsonView {
    TimelineJsonView {
        output_schema_version: OUTPUT_SCHEMA_VERSION,
        session_id: hex32(session_id),
        events: event_dtos(events),
    }
}

pub fn event_to_dto(envelope: &EventEnvelope) -> (r: EventDto)
    ensures
        r@ == event_dto(envelope@),
{
    EventDto {
        schema_version: envelope.schema_version(),
        event_id: hex32_string(envelope.event_id().as_u128()),
        session_id: hex32_string(envelope.session_id().as_u128()),
        sequence: envelope.sequence().value(),
        recorded_at: envelope.recorded_at().value(),
        observation: observation_to_dto(envelope.observation()),
    }
}

/// The output document of a session's events; turning it into JSON text is left to the
/// caller.
pub fn timeline_document(session_id: SessionId, events: &[EventEnvelope]) -> (r: TimelineJson)
    ensures
        r@ == timeline_json(session_id@, envelope_views(events@)),
{
    let mut out: Vec<EventDto> = Vec::new();
    let mut i: usize = 0;
    while i < events.len()
        invariant
            i <= events@.len(),
            out@.len() == i,
            forall|k: int| 0 <= k < i ==> (#[trigger] out@[k])@ == event_dto(events@[k]@),
        decreases events@.len() - i,
    {
        out.push(event_to_dto(&events[i]));
        i = i + 1;
    }
    let r = TimelineJson {
        output_schema_version: OUTPUT_SCHEMA_VERSION,
        session_id: hex32_string(session_id.as_u128()),
        events: out,
    };
    assert(r@.events =~= event_dtos(envelope_views(events@)));
    r
}

// ---------------------------------------------------------------------------
// Human-readable timeline
// ---------------------------------------------------------------------------

pub open spec fn quoted(s: Seq<char>) -> Seq<char> {
    seq!['"'] + s + seq!['"']
}

/// The debug rendering of an optional text: `Some("...")` or `None`.
pub open spec fn debug_opt_text(o: Option<Seq<char>>) -> Seq<char> {
    match o {
        Some(s) => "Some("@ + quoted(s) + ")"@,
        None => "None"@,
    }
}

/// The debug rendering of an optional number: `Some(n)` or `None`.
pub open spec fn debug_opt_u32(o: Option<u32>) -> Seq<char> {
    match o {
        Some(n) => "Some("@ + decimal(n as nat) + ")"@,
        None => "None"@,
    }
}

/// The quoted generation label of an optional workspace state.
pub open spec fn generation_label(s: Option<WorkspaceStateView>) -> Seq<char> {
    quoted(
        match s {
            Some(st) => "gen="@ + decimal(st.generation as nat),
            None => "None"@,
        },
    )
}

/// The display texts of the arguments, separated by commas.
pub open spec fn joined_lossy(args: Seq<NativeStringView>) -> Seq<char>
    decreases args.len(),
{
    if args.len() == 0 {
        Seq::empty()
    } else if args.len() == 1 {
        lossy_text(args[0])
    } else {
        joined_lossy(args.drop_last()) + ","@ + lossy_text(args.last())
    }
}

pub open spec fn time_label(t: ObservationTimeView) -> Seq<char> {
    match (t.wall_clock, t.monotonic) {
        (Some(w), Some(m)) => "wall_clock="@ + signed_decimal(w as int) + " monotonic="@ + decimal(m as nat),
        (Some(w), None) => "wall_clock="@ + signed_decimal(w as int),
        (None, Some(m)) => "monotonic="@ + decimal(m as nat),
        (None, None) => "unknown"@,
    }
}

pub open spec fn termination_label(t: ProcessTermination) -> Seq<char> {
    match t {
        ProcessTermination::ExitCode(c) => "ExitCode("@ + signed_decimal(c as int) + ")"@,
        ProcessTermination::Signal(s) => "Signal("@ + signed_decimal(s as int) + ")"@,
        ProcessTermination::Unknown => "Unknown"@,
    }
}

pub open spec fn mutation_label(k: FileMutationKindView) -> Seq<char> {
    match k {
        FileMutationKindView::Created => "Created"@,
        FileMutationKindView::Modified => "Modified"@,
        FileMutationKindView::Deleted => "Deleted"@,
        FileMutationKindView::Renamed { from } => "Renamed from "@ + lossy_text(from),
    }
}

pub open spec fn source_label(s: ObservationSourceView) -> Seq<char> {
    source_kind_name(s.kind) + ":"@ + hex32(s.id)
}

/// The start of every line: sequence, kind, event id and recording time.
pub open spec fn line_head(e: EnvelopeView, kind: Seq<char>) -> Seq<char> {
    decimal(e.sequence as nat) + " "@ + kind + " event_id="@ + hex32(e.event_id) + " recorded_at="@
        + signed_decimal(e.recorded_at as int)
}

/// The start of a runtime observation's line, with its source and time.
pub open spec fn runtime_head(e: EnvelopeView, r: RuntimeObservationView, kind: Seq<char>) -> Seq<char> {
    line_head(e, kind) + " source="@ + source_label(r.source) + " observed_at="@ + time_label(r.observed_at)
}

pub open spec fn runtime_line(e: EnvelopeView, r: RuntimeObservationView) -> Seq<char> {
    match r.kind {
        RuntimeKindView::ProcessStarted(p) => runtime_head(e, r, "Runtime:ProcessStarted"@) + " pid="@ + hex32(
            p.process_id,
        ) + " parent="@ + debug_opt_text(opt_hex32(p.parent_process_id)) + " os_pid="@ + debug_opt_u32(
            p.operating_system_pid,
        ) + " executable="@ + lossy_text(p.command.executable) + " \n"@,
        RuntimeKindView::ProcessExited(p) => runtime_head(e, r, "Runtime:ProcessExited"@) + " pid="@ + hex32(
            p.process_id,
        ) + " termination="@ + termination_label(p.termination) + "\n"@,
        RuntimeKindView::FileMutationObserved(f) => runtime_head(e, r, "Runtime:FileMutationObserved"@)
            + " path="@ + lossy_text(f.path) + " kind="@ + mutation_label(f.kind) + "\n"@,
        RuntimeKindView::WorkspaceStateAdvanced(w) => runtime_head(e, r, "Runtime:WorkspaceStateAdvanced"@)
            + " previous_gen="@ + decimal(w.transition.previous.generation as nat) + " current_gen="@ + decimal(
            w.transition.current.generation as nat,
        ) + " cause_event="@ + debug_opt_text(opt_hex32(w.cause_event)) + "\n"@,
        RuntimeKindView::ObservationGap(g) => runtime_head(e, r, "Runtime:ObservationGap"@) + " scope="@
            + gap_scope_name(g.scope) + " reason="@ + gap_reason_name(g.reason) + " detail="@ + g.detail + "\n"@,
    }
}

/// The line of one event.
pub open spec fn human_line(e: EnvelopeView) -> Seq<char> {
    match e.observation {
        ObservationView::SessionStarted(s) => line_head(e, "SessionStarted"@) + " executable="@ + lossy_text(
            s.command.executable,
        ) + " args="@ + joined_lossy(s.command.arguments) + " workdir="@ + lossy_text(s.command.working_directory)
            + " initial_workspace="@ + generation_label(s.initial_workspace) + "\n"@,
        ObservationView::SessionEnded(s) => line_head(e, "SessionEnded"@) + " outcome="@ + outcome_name(s.outcome)
            + " final_workspace="@ + generation_label(s.final_workspace) + "\n"@,
        ObservationView::Runtime(r) => runtime_line(e, r),
    }
}

/// The lines of the events, in order.
pub open spec fn human_lines(events: Seq<EnvelopeView>) -> Seq<char>
    decreases events.len(),
{
    if events.len() == 0 {
        Seq::empty()
    } else {
        human_lines(events.drop_last()) + human_line(events.last())
    }
}

/// The human-readable timeline: a header line, then one line per event.
pub open spec fn timeline_human(session_id: u128, events: Seq<EnvelopeView>) -> Seq<char> {
    "session "@ + hex32(session_id) + " timeline (output_schema_version "@ + decimal(OUTPUT_SCHEMA_VERSION as nat)
        + ", events "@ + decimal(events.len()) + ")\n"@ + human_lines(events)
}

fn push_generation_label(out: &mut String, state: Option<&WorkspaceState>)
    ensures
        final(out)@ == old(out)@ + generation_label(match state {
            Some(s) => Some(s@),
            None => None,
        }),
{
    push_char(out, '"');
    match state {
        Some(s) => {
            push_str(out, "gen=");
            push_decimal(out, s.generation().value() as u128);
        },
        None => push_str(out, "None"),
    }
    push_char(out, '"');
    assert(final(out)@ =~= old(out)@ + generation_label(match state {
        Some(s) => Some(s@),
        None => None,
    }));
}

pub(crate) fn push_debug_opt_hex(out: &mut String, value: Option<u128>)
    ensures
        final(out)@ == old(out)@ + debug_opt_text(opt_hex32(value)),
{
    match value {
        Some(v) => {
            push_str(out, "Some(");
            push_char(out, '"');
            push_hex32(out, v);
            push_char(out, '"');
            push_str(out, ")");
        },
        None => push_str(out, "None"),
    }
    assert(final(out)@ =~= old(out)@ + debug_opt_text(opt_hex32(value)));
}

fn push_joined_lossy(out: &mut String, args: &[NativeString])
    ensures
        final(out)@ == old(out)@ + joined_lossy(crate::event::native_views(args@)),
{
    let ghost start = out@;
    let ghost views = crate::event::native_views(args@);
    let mut i: usize = 0;
    while i < args.len()
        invariant
            i <= args@.len(),
            views == crate::event::native_views(args@),
            out@ == start + joined_lossy(views.subrange(0, i as int)),
        decreases args@.len() - i,
    {
        let ghost before = out@;
        if i > 0 {
            push_char(out, ',');
        }
        let t = args[i].to_string_lossy();
        push_str(out, t.as_str());
        proof {
            let pre = views.subrange(0, i as int);
            let next = views.subrange(0, i + 1);
            assert(next.drop_last() =~= pre);
            assert(next.last() == args@[i as int]@);
            if i == 0 {
                assert(joined_lossy(next) == lossy_text(args@[0]@));
                assert(out@ =~= start + joined_lossy(next));
            } else {
                reveal_strlit(",");
                assert(joined_lossy(next) == joined_lossy(pre) + ","@ + lossy_text(args@[i as int]@));
                assert(out@ =~= before + ","@ + lossy_text(args@[i as int]@));
                assert(out@ =~= start + joined_lossy(next));
            }
        }
        i = i + 1;
    }
    assert(views.subrange(0, args@.len() as int) =~= views);
}

fn push_time_label(out: &mut String, t: crate::time::ObservationTime)
    ensures
        final(out)@ == old(out)@ + time_label(t@),
{
    match (t.wall_clock_value(), t.monotonic_value()) {
        (Some(w), Some(m)) => {
            push_str(out, "wall_clock=");
            push_signed_decimal(out, w.value() as i128);
            push_str(out, " monotonic=");
            push_decimal(out, m.value() as u128);
        },
        (Some(w), None) => {
            push_str(out, "wall_clock=");
            push_signed_decimal(out, w.value() as i128);
        },
        (None, Some(m)) => {
            push_str(out, "monotonic=");
            push_decimal(out, m.value() as u128);
        },
        (None, None) => push_str(out, "unknown"),
    }
    assert(final(out)@ =~= old(out)@ + time_label(t@));
}

fn push_termination_label(out: &mut String, t: ProcessTermination)
    ensures
        final(out)@ == old(out)@ + termination_label(t),
{
    match t {
        ProcessTermination::ExitCode(c) => {
            push_str(out, "ExitCode(");
            push_signed_decimal(out, c as i128);
            push_str(out, ")");
        },
        ProcessTermination::Signal(s) => {
            push_str(out, "Signal(");
            push_signed_decimal(out, s as i128);
            push_str(out, ")");
        },
        ProcessTermination::Unknown => push_str(out, "Unknown"),
    }
    assert(final(out)@ =~= old(out)@ + termination_label(t));
}

fn push_line_head(out: &mut String, envelope: &EventEnvelope, kind: &str)
    ensures
        final(out)@ == old(out)@ + line_head(envelope@, kind@),
{
    push_decimal(out, envelope.sequence().value() as u128);
    push_str(out, " ");
    push_str(out, kind);
    push_str(out, " event_id=");
    push_hex32(out, envelope.event_id().as_u128());
    push_str(out, " recorded_at=");
    push_signed_decimal(out, envelope.recorded_at().value() as i128);
    assert(final(out)@ =~= old(out)@ + line_head(envelope@, kind@));
}

fn push_runtime_head(out: &mut String, envelope: &EventEnvelope, runtime: &RuntimeObservation, kind: &str)
    ensures
        final(out)@ == old(out)@ + runtime_head(envelope@, runtime@, kind@),
{
    push_line_head(out, envelope, kind);
    let ghost a = out@;
    push_str(out, " source=");
    let source = runtime.source();
    let k = source_kind_to_str(source.kind());
    push_str(out, k.as_str());
    push_str(out, ":");
    push_hex32(out, source.id().as_u128());
    assert(out@ =~= a + " source="@ + source_label(runtime@.source));
    let ghost b = out@;
    push_str(out, " observed_at=");
    push_time_label(out, runtime.observed_at());
    assert(out@ =~= b + " observed_at="@ + time_label(runtime@.observed_at));
    assert(final(out)@ =~= old(out)@ + runtime_head(envelope@, runtime@, kind@));
}

#[verifier::spinoff_prover]
fn push_process_started_line(out: &mut String, envelope: &EventEnvelope, runtime: &RuntimeObservation, value: &crate::event::ProcessStarted)
    requires
        runtime@.kind == RuntimeKindView::ProcessStarted(value@),
    ensures
        final(out)@ == old(out)@ + runtime_line(envelope@, runtime@),
{
    push_runtime_head(out, envelope, runtime, "Runtime:ProcessStarted");
    let ghost a = out@;
    push_str(out, " pid=");
    push_hex32(out, value.process_id.as_u128());
    push_str(out, " parent=");
    let parent = match value.parent_process_id {
        Some(p) => Some(p.as_u128()),
        None => None,
    };
    push_debug_opt_hex(out, parent);
    let ghost b = out@;
    push_str(out, " os_pid=");
    match value.operating_system_pid {
        Some(n) => {
            push_str(out, "Some(");
            push_decimal(out, n as u128);
            push_str(out, ")");
        },
        None => push_str(out, "None"),
    }
    assert(out@ =~= b + " os_pid="@ + debug_opt_u32(value@.operating_system_pid));
    push_str(out, " executable=");
    let exe = value.command.executable().to_string_lossy();
    push_str(out, exe.as_str());
    push_str(out, " \n");
    assert(final(out)@ =~= old(out)@ + runtime_line(envelope@, runtime@));
}

fn push_process_exited_line(out: &mut String, envelope: &EventEnvelope, runtime: &RuntimeObservation, value: &crate::event::ProcessExited)
    requires
        runtime@.kind == RuntimeKindView::ProcessExited(value@),
    ensures
        final(out)@ == old(out)@ + runtime_line(envelope@, runtime@),
{
    push_runtime_head(out, envelope, runtime, "Runtime:ProcessExited");
    push_str(out, " pid=");
    push_hex32(out, value.process_id.as_u128());
    push_str(out, " termination=");
    push_termination_label(out, value.termination);
    push_str(out, "\n");
    assert(final(out)@ =~= old(out)@ + runtime_line(envelope@, runtime@));
}

fn push_mutation_line(out: &mut String, envelope: &EventEnvelope, runtime: &RuntimeObservation, value: &crate::event::FileMutationObserved)
    requires
        runtime@.kind == RuntimeKindView::FileMutationObserved(value@),
    ensures
        final(out)@ == old(out)@ + runtime_line(envelope@, runtime@),
{
    push_runtime_head(out, envelope, runtime, "Runtime:FileMutationObserved");
    push_str(out, " path=");
    let p = value.path.to_string_lossy();
    push_str(out, p.as_str());
    let ghost a = out@;
    push_str(out, " kind=");
    match &value.kind {
        FileMutationKind::Created => push_str(out, "Created"),
        FileMutationKind::Modified => push_str(out, "Modified"),
        FileMutationKind::Deleted => push_str(out, "Deleted"),
        FileMutationKind::Renamed { from } => {
            push_str(out, "Renamed from ");
            let f = from.to_string_lossy();
            push_str(out, f.as_str());
        },
    }
    assert(out@ =~= a + " kind="@ + mutation_label(value@.kind));
    push_str(out, "\n");
    assert(final(out)@ =~= old(out)@ + runtime_line(envelope@, runtime@));
}

fn push_advance_line(out: &mut String, envelope: &EventEnvelope, runtime: &RuntimeObservation, value: &crate::event::WorkspaceStateAdvanced)
    requires
        runtime@.kind == RuntimeKindView::WorkspaceStateAdvanced(value@),
    ensures
        final(out)@ == old(out)@ + runtime_line(envelope@, runtime@),
{
    push_runtime_head(out, envelope, runtime, "Runtime:WorkspaceStateAdvanced");
    push_str(out, " previous_gen=");
    push_decimal(out, value.transition.previous().generation().value() as u128);
    push_str(out, " current_gen=");
    push_decimal(out, value.transition.current().generation().value() as u128);
    push_str(out, " cause_event=");
    let cause = match value.cause_event {
        Some(c) => Some(c.as_u128()),
        None => None,
    };
    push_debug_opt_hex(out, cause);
    push_str(out, "\n");
    assert(final(out)@ =~= old(out)@ + runtime_line(envelope@, runtime@));
}

fn push_gap_line(out: &mut String, envelope: &EventEnvelope, runtime: &RuntimeObservation, value: &crate::event::ObservationGap)
    requires
        runtime@.kind == RuntimeKindView::ObservationGap(value@),
    ensures
        final(out)@ == old(out)@ + runtime_line(envelope@, runtime@),
{
    push_runtime_head(out, envelope, runtime, "Runtime:ObservationGap");
    push_str(out, " scope=");
    let s = gap_scope_to_str(value.scope);
    push_str(out, s.as_str());
    push_str(out, " reason=");
    let r = gap_reason_to_str(value.reason);
    push_str(out, r.as_str());
    push_str(out, " detail=");
    push_str(out, value.detail.as_str());
    push_str(out, "\n");
    assert(final(out)@ =~= old(out)@ + runtime_line(envelope@, runtime@));
}

fn push_runtime_line(out: &mut String, envelope: &EventEnvelope, runtime: &RuntimeObservation)
    ensures
        final(out)@ == old(out)@ + runtime_line(envelope@, runtime@),
{
    match runtime.kind() {
        RuntimeObservationKind::ProcessStarted(value) => push_process_started_line(out, envelope, runtime, value),
        RuntimeObservationKind::ProcessExited(value) => push_process_exited_line(out, envelope, runtime, value),
        RuntimeObservationKind::FileMutationObserved(value) => push_mutation_line(out, envelope, runtime, value),
        RuntimeObservationKind::WorkspaceStateAdvanced(value) => push_advance_line(out, envelope, runtime, value),
        RuntimeObservationKind::ObservationGap(value) => push_gap_line(out, envelope, runtime, value),
    }
}

fn push_human_line(out: &mut String, envelope: &EventEnvelope)
    ensures
        final(out)@ == old(out)@ + human_line(envelope@),
{
    match envelope.observation() {
        Observation::SessionStarted(started) => {
            push_line_head(out, envelope, "SessionStarted");
            let cmd = started.command();
            push_str(out, " executable=");
            let exe = cmd.executable().to_string_lossy();
            push_str(out, exe.as_str());
            push_str(out, " args=");
            push_joined_lossy(out, cmd.arguments());
            push_str(out, " workdir=");
            let wd = cmd.working_directory().to_string_lossy();
            push_str(out, wd.as_str());
            push_str(out, " initial_workspace=");
            push_generation_label(out, started.initial_workspace());
            push_str(out, "\n");
            assert(final(out)@ =~= old(out)@ + human_line(envelope@));
        },
        Observation::SessionEnded(ended) => {
            push_line_head(out, envelope, "SessionEnded");
            push_str(out, " outcome=");
            let o = outcome_to_str(ended.outcome());
            push_str(out, o.as_str());
            push_str(out, " final_workspace=");
            push_generation_label(out, ended.final_workspace());
            push_str(out, "\n");
            assert(final(out)@ =~= old(out)@ + human_line(envelope@));
        },
        Observation::Runtime(runtime) => {
            push_runtime_line(out, envelope, runtime);
            assert(final(out)@ =~= old(out)@ + human_line(envelope@));
        },
    }
}

/// The human-readable timeline of a session's events.
pub fn format_human(session_id: SessionId, events: &[EventEnvelope]) -> (r: String)
    ensures
        r@ == timeline_human(session_id@, envelope_views(events@)),
{
    let mut out = string_of("session ");
    push_hex32(&mut out, session_id.as_u128());
    push_str(&mut out, " timeline (output_schema_version ");
    push_decimal(&mut out, OUTPUT_SCHEMA_VERSION as u128);
    push_str(&mut out, ", events ");
    push_decimal(&mut out, events.len() as u128);
    push_str(&mut out, ")\n");
    let ghost head = out@;
    let ghost views = envelope_views(events@);
    let mut i: usize = 0;
    while i < events.len()
        invariant
            i <= events@.len(),
            views == envelope_views(events@),
            out@ == head + human_lines(views.subrange(0, i as int)),
        decreases events@.len() - i,
    {
        push_human_line(&mut out, &events[i]);
        proof {
            let next = views.subrange(0, i + 1);
            assert(next.drop_last() =~= views.subrange(0, i as int));
        }
        i = i + 1;
        assert(out@ =~= head + human_lines(views.subrange(0, i as int)));
    }
    assert(views.subrange(0, events@.len() as int) =~= views);
    assert(out@ =~= timeline_human(session_id@, views));
    out
}


// ---------------------------------------------------------------------------
// Session identifiers typed by a user
// ---------------------------------------------------------------------------

/// A character of Unicode's `White_Space` property, the whitespace `str::trim` removes.
pub open spec fn is_white_space(c: char) -> bool {
    ||| '\u{9}' <= c <= '\u{d}'
    ||| c == ' ' || c == '\u{85}' || c == '\u{a0}' || c == '\u{1680}'
    ||| '\u{2000}' <= c <= '\u{200a}'
    ||| c == '\u{2028}' || c == '\u{2029}' || c == '\u{202f}' || c == '\u{205f}' || c == '\u{3000}'
}

/// How many characters at the start of `s` are whitespace.
pub open spec fn leading_space(s: Seq<char>) -> nat
    decreases s.len(),
{
    if s.len() > 0 && is_white_space(s[0]) {
        1 + leading_space(s.drop_first())
    } else {
        0
    }
}

/// How many characters at the end of `s` are whitespace.
pub open spec fn trailing_space(s: Seq<char>) -> nat
    decreases s.len(),
{
    if s.len() > 0 && is_white_space(s.last()) {
        1 + trailing_space(s.drop_last())
    } else {
        0
    }
}

/// What `str::trim` keeps of a text: the text without its leading and trailing whitespace.
pub open spec fn trimmed(text: Seq<char>) -> Seq<char> {
    if leading_space(text) == text.len() {
        Seq::empty()
    } else {
        text.subrange(leading_space(text) as int, text.len() - trailing_space(text))
    }
}

/// Whether `c` is whitespace, as `is_white_space` says.
fn white_space(c: char) -> (r: bool)
    ensures
        r == is_white_space(c),
{
    ('\u{9}' <= c && c <= '\u{d}') || c == ' ' || c == '\u{85}' || c == '\u{a0}' || c == '\u{1680}'
        || ('\u{2000}' <= c && c <= '\u{200a}') || c == '\u{2028}' || c == '\u{2029}' || c == '\u{202f}'
        || c == '\u{205f}' || c == '\u{3000}'
}

/// The text without its leading and trailing whitespace, as `trimmed` says (what
/// `str::trim` keeps).
fn trim_text(text: &str) -> (r: String)
    ensures
        r@ == trimmed(text@),
{
    let chars = crate::text::chars_of(text);
    let n = chars.len();
    let mut lead: usize = 0;
    proof {
        assert(chars@.subrange(0, n as int) =~= chars@);
    }
    while lead < n && white_space(chars[lead])
        invariant
            chars@ == text@,
            n == chars@.len(),
            lead <= n,
            leading_space(chars@) == lead + leading_space(chars@.subrange(lead as int, n as int)),
        decreases n - lead,
    {
        proof {
            assert(chars@.subrange(lead as int, n as int).drop_first() =~= chars@.subrange(lead + 1, n as int));
        }
        lead = lead + 1;
    }
    if lead == n {
        return String::new();
    }
    let mut trail: usize = 0;
    while trail < n && white_space(chars[n - 1 - trail])
        invariant
            chars@ == text@,
            n == chars@.len(),
            lead < n,
            !is_white_space(chars@[lead as int]),
            trail <= n,
            forall|k: int| n - trail <= k < n ==> is_white_space(#[trigger] chars@[k]),
            trailing_space(chars@) == trail + trailing_space(chars@.subrange(0, n - trail)),
        decreases n - trail,
    {
        proof {
            assert(chars@.subrange(0, n - trail).drop_last() =~= chars@.subrange(0, n - trail - 1));
        }
        trail = trail + 1;
    }
    assert(lead < n - trail);
    let mut out = String::new();
    let mut i: usize = lead;
    while i < n - trail
        invariant
            chars@ == text@,
            n == chars@.len(),
            lead <= i <= n - trail,
            out@ == chars@.subrange(lead as int, i as int),
        decreases n - trail - i,
    {
        push_char(&mut out, chars[i]);
        i = i + 1;
        assert(out@ =~= chars@.subrange(lead as int, i as int));
    }
    out
}

/// The hexadecimal digits of an identifier, after an optional `0x` or `0X`.
pub open spec fn hex_part(t: Seq<char>) -> Seq<char> {
    if t.len() >= 2 && t[0] == '0' && (t[1] == 'x' || t[1] == 'X') {
        t.subrange(2, t.len() as int)
    } else {
        t
    }
}

/// The identifier a trimmed text names: exactly 32 hexadecimal digits.
pub open spec fn session_id_of(trimmed_text: Seq<char>) -> Option<u128> {
    let h = hex_part(trimmed_text);
    if vstd::utf8::encode_utf8(h).len() != 32 {
        None
    } else if h.len() > 0 && h[0] == '+' {
        None
    } else {
        parse_hex(h)
    }
}

/// Why a trimmed text names no identifier; `text` is the text as typed.
pub open spec fn session_id_error(trimmed_text: Seq<char>, text: Seq<char>) -> Seq<char> {
    let n = vstd::utf8::encode_utf8(hex_part(trimmed_text)).len();
    if n != 32 {
        "session id must be 32 hex chars, got "@ + decimal(n) + " chars"@
    } else {
        "invalid session id hex: "@ + text
    }
}

/// Reads a session identifier from the trimmed form of what a user typed.
pub fn parse_trimmed_session_id(trimmed_text: &str, text: &str) -> (r: Result<SessionId, String>)
    ensures
        match session_id_of(trimmed_text@) {
            Some(v) => r matches Ok(id) && id@ == v,
            None => r matches Err(m) && m@ == session_id_error(trimmed_text@, text@),
        },
{
    let chars = crate::text::chars_of(trimmed_text);
    let skip: usize = if chars.len() >= 2 && chars[0] == '0' && (chars[1] == 'x' || chars[1] == 'X') {
        2
    } else {
        0
    };
    let mut hex = String::new();
    let mut i: usize = skip;
    while i < chars.len()
        invariant
            skip <= i <= chars@.len(),
            hex@ == chars@.subrange(skip as int, i as int),
        decreases chars@.len() - i,
    {
        push_char(&mut hex, chars[i]);
        i = i + 1;
        assert(hex@ =~= chars@.subrange(skip as int, i as int));
    }
    assert(hex@ =~= hex_part(trimmed_text@));
    let n = hex.as_str().as_bytes().len();
    if n != 32 {
        let mut m = string_of("session id must be 32 hex chars, got ");
        push_decimal(&mut m, n as u128);
        push_str(&mut m, " chars");
        return Err(m);
    }
    let signed = skip < chars.len() && chars[skip] == '+';
    proof {
        if hex@.len() > 0 {
            assert(hex@[0] == chars@[skip as int]);
        }
    }
    let parsed = if signed {
        None
    } else {
        parse_hex_u128(hex.as_str())
    };
    match parsed {
        Some(v) => Ok(SessionId::from_u128(v)),
        None => {
            let mut m = string_of("invalid session id hex: ");
            push_str(&mut m, text);
            Err(m)
        },
    }
}

/// Reads a session identifier typed by a user: 32 hexadecimal digits, optionally after
/// `0x`, with surrounding whitespace ignored.
pub fn parse_session_id(text: &str) -> (r: Result<SessionId, String>)
    ensures
        match session_id_of(trimmed(text@)) {
            Some(v) => r matches Ok(id) && id@ == v,
            None => r matches Err(m) && m@ == session_id_error(trimmed(text@), text@),
        },
{
    let t = trim_text(text);
    parse_trimmed_session_id(t.as_str(), text)
}

proof fn lemma_occurs_in_left(a: Seq<char>, b: Seq<char>, t: Seq<char>, p: int)
    requires
        occurs_at(a, t, p),
    ensures
        occurs_at(a + b, t, p),
{
    assert((a + b).subrange(p, p + t.len()) =~= a.subrange(p, p + t.len()));
}

proof fn lemma_occurs_in_right(a: Seq<char>, b: Seq<char>, t: Seq<char>, p: int)
    requires
        occurs_at(b, t, p),
    ensures
        occurs_at(a + b, t, a.len() + p),
{
    assert((a + b).subrange(a.len() + p, a.len() + p + t.len()) =~= b.subrange(p, p + t.len()));
}

proof fn lemma_line_in_lines(events: Seq<EnvelopeView>, i: int) -> (p: int)
    requires
        0 <= i < events.len(),
    ensures
        occurs_at(human_lines(events), human_line(events[i]), p),
    decreases events.len(),
{
    let rest = events.drop_last();
    let line = human_line(events[i]);
    if i == events.len() - 1 {
        let p = human_lines(rest).len() as int;
        assert(line.subrange(0, line.len() as int) =~= line);
        lemma_occurs_in_right(human_lines(rest), line, line, 0);
        p
    } else {
        let p = lemma_line_in_lines(rest, i);
        assert(rest[i] == events[i]);
        lemma_occurs_in_left(human_lines(rest), human_line(events.last()), line, p);
        p
    }
}

/// A piece `t` of an event's line, standing after `x`, is in the human timeline.
proof fn lemma_timeline_contains_piece(
    session_id: u128,
    events: Seq<EnvelopeView>,
    i: int,
    x: Seq<char>,
    t: Seq<char>,
    y: Seq<char>,
)
    requires
        0 <= i < events.len(),
        human_line(events[i]) =~= x + t + y,
    ensures
        contains_text(timeline_human(session_id, events), t),
{
    let line = human_line(events[i]);
    assert((x + t + y).subrange(x.len() as int, (x.len() + t.len()) as int) =~= t);
    let p = lemma_line_in_lines(events, i);
    let lines = human_lines(events);
    assert(lines.subrange(p + x.len(), p + x.len() + t.len()) =~= line.subrange(x.len() as int, (x.len() + t.len()) as int));
    assert(occurs_at(lines, t, p + x.len()));
    let header = "session "@ + hex32(session_id) + " timeline (output_schema_version "@ + decimal(
        OUTPUT_SCHEMA_VERSION as nat,
    ) + ", events "@ + decimal(events.len()) + ")\n"@;
    lemma_occurs_in_right(header, lines, t, p + x.len());
    assert(timeline_human(session_id, events) == header + lines);
}

/// The human timeline shows each workspace advance with the generation it left and the
/// generation it reached: `previous_gen=` then `current_gen=`, in decimal.
pub proof fn lemma_timeline_shows_advance_generations(session_id: u128, events: Seq<EnvelopeView>, i: int)
    requires
        0 <= i < events.len(),
        events[i].observation matches ObservationView::Runtime(r) && r.kind is WorkspaceStateAdvanced,
    ensures
        ({
            let w = events[i].observation->Runtime_0.kind->WorkspaceStateAdvanced_0;
            contains_text(
                timeline_human(session_id, events),
                " previous_gen="@ + decimal(w.transition.previous.generation as nat) + " current_gen="@ + decimal(
                    w.transition.current.generation as nat,
                ) + " cause_event="@,
            )
        }),
{
    let e = events[i];
    let r = e.observation->Runtime_0;
    let w = r.kind->WorkspaceStateAdvanced_0;
    let t = " previous_gen="@ + decimal(w.transition.previous.generation as nat) + " current_gen="@ + decimal(
        w.transition.current.generation as nat,
    ) + " cause_event="@;
    let x = runtime_head(e, r, "Runtime:WorkspaceStateAdvanced"@);
    let y = debug_opt_text(opt_hex32(w.cause_event)) + "\n"@;
    lemma_timeline_contains_piece(session_id, events, i, x, t, y);
}

/// The name each kind of event goes by in the human timeline.
pub open spec fn event_kind_name(e: EnvelopeView) -> Seq<char> {
    match e.observation {
        ObservationView::SessionStarted(_) => "SessionStarted"@,
        ObservationView::SessionEnded(_) => "SessionEnded"@,
        ObservationView::Runtime(r) => match r.kind {
            RuntimeKindView::ProcessStarted(_) => "Runtime:ProcessStarted"@,
            RuntimeKindView::ProcessExited(_) => "Runtime:ProcessExited"@,
            RuntimeKindView::FileMutationObserved(_) => "Runtime:FileMutationObserved"@,
            RuntimeKindView::WorkspaceStateAdvanced(_) => "Runtime:WorkspaceStateAdvanced"@,
            RuntimeKindView::ObservationGap(_) => "Runtime:ObservationGap"@,
        },
    }
}

/// Every event has a line in the human timeline that starts with its sequence number in
/// decimal, its kind, its event id and the time it was recorded.
#[verifier::spinoff_prover]
pub proof fn lemma_timeline_lists_every_event(session_id: u128, events: Seq<EnvelopeView>, i: int)
    requires
        0 <= i < events.len(),
    ensures
        contains_text(
            timeline_human(session_id, events),
            decimal(events[i].sequence as nat) + " "@ + event_kind_name(events[i]) + " event_id="@ + hex32(
                events[i].event_id,
            ) + " recorded_at="@ + signed_decimal(events[i].recorded_at as int),
        ),
{
    let e = events[i];
    let t = line_head(e, event_kind_name(e));
    let line = human_line(e);
    let y = line.subrange(t.len() as int, line.len() as int);
    assert(line =~= Seq::<char>::empty() + t + y);
    lemma_timeline_contains_piece(session_id, events, i, Seq::<char>::empty(), t, y);
}

/// The human timeline shows how each process ended and how the session ended.
pub proof fn lemma_timeline_shows_how_things_ended(session_id: u128, events: Seq<EnvelopeView>, i: int)
    requires
        0 <= i < events.len(),
    ensures
        events[i].observation matches ObservationView::Runtime(r) ==> (r.kind matches RuntimeKindView::ProcessExited(p)
            ==> contains_text(
            timeline_human(session_id, events),
            " pid="@ + hex32(p.process_id) + " termination="@ + termination_label(p.termination) + "\n"@,
        )),
        events[i].observation matches ObservationView::SessionEnded(se) ==> contains_text(
            timeline_human(session_id, events),
            " outcome="@ + outcome_name(se.outcome) + " final_workspace="@ + generation_label(se.final_workspace)
                + "\n"@,
        ),
{
    let e = events[i];
    match e.observation {
        ObservationView::Runtime(r) => {
            if let RuntimeKindView::ProcessExited(p) = r.kind {
                let x = runtime_head(e, r, "Runtime:ProcessExited"@);
                let t = " pid="@ + hex32(p.process_id) + " termination="@ + termination_label(p.termination) + "\n"@;
                assert(human_line(e) =~= x + t + Seq::<char>::empty());
                lemma_timeline_contains_piece(session_id, events, i, x, t, Seq::<char>::empty());
                assert(contains_text(timeline_human(session_id, events), t));
            }
        },
        ObservationView::SessionEnded(se) => {
            let x = line_head(e, "SessionEnded"@);
            let t = " outcome="@ + outcome_name(se.outcome) + " final_workspace="@ + generation_label(se.final_workspace)
                + "\n"@;
            lemma_timeline_contains_piece(session_id, events, i, x, t, Seq::<char>::empty());
        },
        _ => {},
    }
}
} // verus!
