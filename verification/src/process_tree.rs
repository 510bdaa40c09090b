//! Following the descendants of the captured root process through successive looks at the
//! operating system's process table.
//!
//! A process is followed once it is seen running with a followed, running parent; it is
//! seen to exit when a later look no longer shows it running. A process that starts and
//! exits between two looks is not seen at all, which every session reports as a gap.

use vstd::prelude::*;
use crate::capture::{prefix_of, CaptureError, ObservationSink};
use crate::event::{
    native_views, CommandSpec, CommandSpecView, EnvelopeView, ObservationView, ProcessExited, ProcessExitedView, ProcessStarted,
    ProcessStartedView, ProcessTermination, RuntimeKindView, RuntimeObservation, RuntimeObservationKind,
    RuntimeObservationView,
};
use crate::identity::ProcessInstanceId;
use crate::native::{NativeEncoding, NativePath, NativeString, NativeStringView};
use crate::linux_capture::{appended, root_source, LinuxCaptureAdapter};
use crate::recorder::recording_failure;
use crate::time::{ObservationTime, ObservationTimeView};

verus! {

/// One process in a look at the process table: its id, its parent's id, and whether it
/// still runs (an exited process that awaits its parent does not).
#[derive(Clone, Copy, Debug, PartialEq, Eq, Structural)]
pub struct ProcessEntry {
    pub os_pid: u32,
    pub parent_os_pid: u32,
    pub running: bool,
}

/// A followed process: its operating-system id, the identifier it is recorded under, and
/// whether it was still running at the last look.
#[derive(Clone, Copy, Debug, PartialEq, Eq, Structural)]
pub struct TrackedProcess {
    pub os_pid: u32,
    pub process_id: ProcessInstanceId,
    pub running: bool,
}

pub struct TrackedView {
    pub os_pid: u32,
    pub process_id: u128,
    pub running: bool,
}

impl View for TrackedProcess {
    type V = TrackedView;

    open spec fn view(&self) -> TrackedView {
        TrackedView { os_pid: self.os_pid, process_id: self.process_id@, running: self.running }
    }
}

/// The processes a capture follows, the root process first, in the order they were seen.
pub struct ProcessTree {
    followed: Vec<TrackedProcess>,
}

impl View for ProcessTree {
    type V = Seq<TrackedView>;

    closed spec fn view(&self) -> Seq<TrackedView> {
        self.followed@.map_values(|t: TrackedProcess| t@)
    }
}

/// Entry `i` of `t` is a running process with operating-system id `pid`.
pub open spec fn running_at(t: Seq<TrackedView>, pid: u32, i: int) -> bool {
    0 <= i < t.len() && t[i].running && t[i].os_pid == pid
}

/// Some followed process with operating-system id `pid` is running.
pub open spec fn tracked_running(t: Seq<TrackedView>, pid: u32) -> bool {
    exists|i: int| running_at(t, pid, i)
}

/// A well-formed tree: the root comes first, and no two running processes share an
/// operating-system id.
pub open spec fn tree_wf(t: Seq<TrackedView>) -> bool {
    &&& t.len() >= 1
    &&& forall|i: int, j: int| 0 <= i < t.len() && 0 <= j < t.len() && i != j && t[i].running && t[j].running
        ==> #[trigger] t[i].os_pid != #[trigger] t[j].os_pid
}

/// The identifier of the running process with operating-system id `pid`.
pub open spec fn instance_of(t: Seq<TrackedView>, pid: u32) -> u128 {
    t[choose|i: int| running_at(t, pid, i)].process_id
}

/// The look at the process table shows `pid` running.
pub open spec fn shown_running(table: Seq<ProcessEntry>, pid: u32) -> bool {
    exists|j: int| 0 <= j < table.len() && table[j].os_pid == pid && #[trigger] table[j].running
}

/// A table entry the tree does not follow yet and whose parent it follows.
pub open spec fn adoptable(t: Seq<TrackedView>, e: ProcessEntry) -> bool {
    e.running && tracked_running(t, e.parent_os_pid) && !tracked_running(t, e.os_pid)
}

/// The entries of `table` that can be followed, in table order.
pub open spec fn adoptable_entries(t: Seq<TrackedView>, table: Seq<ProcessEntry>) -> Seq<ProcessEntry>
    decreases table.len(),
{
    if table.len() == 0 {
        Seq::empty()
    } else {
        let rest = adoptable_entries(t, table.drop_last());
        if adoptable(t, table.last()) {
            rest.push(table.last())
        } else {
            rest
        }
    }
}

/// Entry `i`, a descendant, was running and the look no longer shows it.
pub open spec fn vanished(t: Seq<TrackedView>, table: Seq<ProcessEntry>, i: int) -> bool {
    1 <= i < t.len() && t[i].running && !shown_running(table, t[i].os_pid)
}

/// What is recorded when a followed process is seen to have exited.
pub open spec fn exit_observation(process_id: u128, at: ObservationTimeView) -> RuntimeObservationView {
    RuntimeObservationView {
        source: root_source(),
        observed_at: at,
        kind: RuntimeKindView::ProcessExited(
            ProcessExitedView { process_id, termination: ProcessTermination::Unknown },
        ),
    }
}

/// The exits recorded for the first `n` followed processes, in tree order.
pub open spec fn exits_upto(t: Seq<TrackedView>, table: Seq<ProcessEntry>, n: int, at: ObservationTimeView) -> Seq<
    RuntimeObservationView,
>
    decreases n,
{
    if n <= 0 {
        Seq::empty()
    } else {
        let rest = exits_upto(t, table, n - 1, at);
        if vanished(t, table, n - 1) {
            rest.push(exit_observation(t[n - 1].process_id, at))
        } else {
            rest
        }
    }
}

/// The tree after a look: every vanished descendant no longer runs.
pub open spec fn after_look(t: Seq<TrackedView>, table: Seq<ProcessEntry>) -> Seq<TrackedView> {
    Seq::new(
        t.len(),
        |i: int| TrackedView { os_pid: t[i].os_pid, process_id: t[i].process_id, running: t[i].running && !vanished(t, table, i) },
    )
}

/// What is recorded when a process is first seen.
pub open spec fn start_observation(
    t: Seq<TrackedView>,
    e: ProcessEntry,
    process_id: u128,
    command: crate::event::CommandSpecView,
    at: ObservationTimeView,
) -> RuntimeObservationView {
    RuntimeObservationView {
        source: root_source(),
        observed_at: at,
        kind: RuntimeKindView::ProcessStarted(
            ProcessStartedView {
                process_id,
                parent_process_id: Some(instance_of(t, e.parent_os_pid)),
                operating_system_pid: Some(e.os_pid),
                command,
                workspace_state: None,
            },
        ),
    }
}

/// Appending `x` after what was appended appends one more.
proof fn lemma_appended_push(
    a: Seq<EnvelopeView>,
    b: Seq<EnvelopeView>,
    c: Seq<EnvelopeView>,
    xs: Seq<RuntimeObservationView>,
    x: RuntimeObservationView,
)
    requires
        appended(a, b, xs),
        appended(b, c, seq![x]),
    ensures
        appended(a, c, xs.push(x)),
{
    assert(c.subrange(0, a.len() as int) =~= b.subrange(0, a.len() as int));
    assert forall|i: int| 0 <= i < xs.push(x).len() implies #[trigger] c[a.len() + i].observation
        == ObservationView::Runtime(xs.push(x)[i]) by {
        if i < xs.len() {
            assert(c[a.len() + i] == b[a.len() + i]);
        } else {
            assert(c[b.len() + 0int] == c[a.len() + i]);
        }
    }
}

proof fn lemma_appended_empty(a: Seq<EnvelopeView>)
    ensures
        appended(a, a, Seq::empty()),
{
    assert(a.subrange(0, a.len() as int) =~= a);
}

impl ProcessTree {
    /// A tree that follows only the root process.
    pub fn rooted(os_pid: u32, process_id: ProcessInstanceId) -> (r: Self)
        ensures
            r@ == seq![TrackedView { os_pid, process_id: process_id@, running: true }],
            tree_wf(r@),
    {
        let r = ProcessTree { followed: vec![TrackedProcess { os_pid, process_id, running: true }] };
        assert(r@ =~= seq![TrackedView { os_pid, process_id: process_id@, running: true }]);
        r
    }

    /// The followed processes, the root first.
    pub fn processes(&self) -> (r: Vec<TrackedProcess>)
        ensures
            r@.map_values(|t: TrackedProcess| t@) == self@,
    {
        self.followed.clone()
    }

    /// The position of the running followed process with operating-system id `pid`.
    fn running_position(&self, pid: u32) -> (r: Option<usize>)
        ensures
            r matches Some(i) ==> running_at(self@, pid, i as int),
            r is None ==> !tracked_running(self@, pid),
    {
        let mut i: usize = 0;
        while i < self.followed.len()
            invariant
                i <= self.followed@.len(),
                self@ == self.followed@.map_values(|t: TrackedProcess| t@),
                forall|k: int| 0 <= k < i ==> !running_at(self@, pid, k),
            decreases self.followed@.len() - i,
        {
            let t = self.followed[i];
            if t.running && t.os_pid == pid {
                return Some(i);
            }
            i = i + 1;
        }
        None
    }
}

impl ProcessTree {
    /// The entries of a look at the process table that can be followed now: running, not
    /// followed yet, with a followed running parent; in table order.
    pub fn candidates(&self, table: &[ProcessEntry]) -> (r: Vec<ProcessEntry>)
        ensures
            r@ == adoptable_entries(self@, table@),
    {
        let mut out: Vec<ProcessEntry> = Vec::new();
        let mut j: usize = 0;
        while j < table.len()
            invariant
                j <= table@.len(),
                out@ == adoptable_entries(self@, table@.subrange(0, j as int)),
            decreases table@.len() - j,
        {
            let e = table[j];
            proof {
                assert(table@.subrange(0, j + 1).drop_last() =~= table@.subrange(0, j as int));
                assert(table@.subrange(0, j + 1).last() == e);
            }
            if e.running {
                match self.running_position(e.parent_os_pid) {
                    Some(_) => {
                        match self.running_position(e.os_pid) {
                            None => out.push(e),
                            Some(_) => {},
                        }
                    },
                    None => {},
                }
            }
            j = j + 1;
        }
        assert(table@.subrange(0, table@.len() as int) =~= table@);
        out
    }

    /// Follows `entry` when it can be followed: records its start under `process_id`, with
    /// its parent's identifier, and answers `true`; otherwise records nothing and answers
    /// `false`.
    pub fn adopt<K: ObservationSink>(
        &mut self,
        entry: ProcessEntry,
        command: CommandSpec,
        process_id: ProcessInstanceId,
        sink: &mut K,
        observed_at: ObservationTime,
    ) -> (r: Result<bool, CaptureError>)
        requires
            tree_wf(old(self)@),
            old(sink).ready(),
        ensures
            tree_wf(final(self)@),
            final(sink).ready(),
            prefix_of(old(sink).accepted(), final(sink).accepted()),
            !adoptable(old(self)@, entry) ==> r == Ok::<bool, CaptureError>(false) && final(self)@ == old(self)@
                && final(sink).accepted() == old(sink).accepted(),
            adoptable(old(self)@, entry) ==> r != Ok::<bool, CaptureError>(false),
            r == Ok::<bool, CaptureError>(true) ==> {
                &&& final(self)@ == old(self)@.push(TrackedView { os_pid: entry.os_pid, process_id: process_id@, running: true })
                &&& appended(
                    old(sink).accepted(),
                    final(sink).accepted(),
                    seq![start_observation(old(self)@, entry, process_id@, command@, observed_at@)],
                )
            },
            r is Err ==> final(self)@ == old(self)@,
            r matches Err(e) ==> e matches CaptureError::ObservationSink(se) && recording_failure(se, final(sink).accepted().len()),
    {
        proof {
            assert(sink.accepted().subrange(0, sink.accepted().len() as int) =~= sink.accepted());
        }
        if !entry.running {
            return Ok(false);
        }
        let parent = match self.running_position(entry.parent_os_pid) {
            Some(i) => i,
            None => return Ok(false),
        };
        match self.running_position(entry.os_pid) {
            Some(_) => return Ok(false),
            None => {},
        }
        let ghost t = self@;
        let ghost start = sink.accepted();
        proof {
            let c = choose|i: int| running_at(t, entry.parent_os_pid, i);
            assert(running_at(t, entry.parent_os_pid, c));
            assert(c == parent as int);
        }
        let parent_id = self.followed[parent].process_id;
        let observation = RuntimeObservation::new(
            LinuxCaptureAdapter::process_source(),
            observed_at,
            RuntimeObservationKind::ProcessStarted(
                ProcessStarted {
                    process_id,
                    parent_process_id: Some(parent_id),
                    operating_system_pid: Some(entry.os_pid),
                    command,
                    workspace_state: None,
                },
            ),
        );
        assert(observation@ == start_observation(t, entry, process_id@, command@, observed_at@));
        match sink.record(observation) {
            Ok(()) => {},
            Err(e) => return Err(CaptureError::ObservationSink(e)),
        }
        proof {
            let after = sink.accepted();
            assert(after.subrange(0, start.len() as int) =~= start);
            assert(after[start.len() + 0int] == after.last());
        }
        self.followed.push(TrackedProcess { os_pid: entry.os_pid, process_id, running: true });
        proof {
            let n = self@;
            assert(n =~= t.push(TrackedView { os_pid: entry.os_pid, process_id: process_id@, running: true }));
            assert forall|i: int, j: int| 0 <= i < n.len() && 0 <= j < n.len() && i != j && n[i].running && n[j].running
                implies #[trigger] n[i].os_pid != #[trigger] n[j].os_pid by {
                if i == t.len() {
                    assert(!running_at(t, entry.os_pid, j));
                } else if j == t.len() {
                    assert(!running_at(t, entry.os_pid, i));
                }
            }
        }
        Ok(true)
    }

    /// A look at the process table: records the exit of every followed descendant that
    /// ran and is no longer shown running, in tree order, and marks it exited. The root
    /// process's exit is reported by `LinuxCaptureAdapter::exited`.
    pub fn observe_exits<K: ObservationSink>(
        &mut self,
        table: &[ProcessEntry],
        sink: &mut K,
        observed_at: ObservationTime,
    ) -> (r: Result<(), CaptureError>)
        requires
            tree_wf(old(self)@),
            old(sink).ready(),
        ensures
            tree_wf(final(self)@),
            final(sink).ready(),
            prefix_of(old(sink).accepted(), final(sink).accepted()),
            r is Ok ==> {
                &&& final(self)@ == after_look(old(self)@, table@)
                &&& appended(
                    old(sink).accepted(),
                    final(sink).accepted(),
                    exits_upto(old(self)@, table@, old(self)@.len() as int, observed_at@),
                )
            },
            r matches Err(e) ==> e matches CaptureError::ObservationSink(se) && recording_failure(se, final(sink).accepted().len()),
    {
        let ghost t = self@;
        let ghost start = sink.accepted();
        proof {
            lemma_appended_empty(start);
            assert(exits_upto(t, table@, 1, observed_at@) =~= Seq::<RuntimeObservationView>::empty()) by {
                reveal_with_fuel(exits_upto, 2);
            }
            assert(start.subrange(0, start.len() as int) =~= start);
        }
        let mut i: usize = 1;
        while i < self.followed.len()
            invariant
                1 <= i,
                t.len() >= 1,
                t == old(self)@,
                start == old(sink).accepted(),
                self.followed@.len() == t.len(),
                i <= t.len(),
                self@ == self.followed@.map_values(|p: TrackedProcess| p@),
                tree_wf(self@),
                forall|k: int| 0 <= k < i ==> #[trigger] self@[k] == after_look(t, table@)[k],
                forall|k: int| i <= k < t.len() ==> #[trigger] self@[k] == t[k],
                sink.ready(),
                prefix_of(start, sink.accepted()),
                appended(start, sink.accepted(), exits_upto(t, table@, i as int, observed_at@)),
            decreases t.len() - i,
        {
            let p = self.followed[i];
            assert(self@[i as int] == t[i as int]);
            if p.running && !table_shows(table, p.os_pid) {
                let ghost before = sink.accepted();
                let observation = RuntimeObservation::new(
                    LinuxCaptureAdapter::process_source(),
                    observed_at,
                    RuntimeObservationKind::ProcessExited(
                        ProcessExited { process_id: p.process_id, termination: ProcessTermination::Unknown },
                    ),
                );
                match sink.record(observation) {
                    Ok(()) => {},
                    Err(e) => {
                        assert(sink.accepted().subrange(0, start.len() as int) =~= start);
                        return Err(CaptureError::ObservationSink(e));
                    },
                }
                proof {
                    let after = sink.accepted();
                    assert(after.subrange(0, before.len() as int) =~= before);
                    assert(after[before.len() + 0int] == after.last());
                    assert(appended(before, after, seq![exit_observation(t[i as int].process_id, observed_at@)]));
                    lemma_appended_push(start, before, after, exits_upto(t, table@, i as int, observed_at@),
                        exit_observation(t[i as int].process_id, observed_at@));
                    assert(after.subrange(0, start.len() as int) =~= start);
                }
                let ghost old_view = self@;
                self.followed.set(i, TrackedProcess { os_pid: p.os_pid, process_id: p.process_id, running: false });
                proof {
                    let n = self@;
                    assert(n[i as int] == after_look(t, table@)[i as int]);
                    assert forall|k: int| 0 <= k < n.len() && k != i implies #[trigger] n[k] == old_view[k] by {}
                    assert forall|a: int, b: int| 0 <= a < n.len() && 0 <= b < n.len() && a != b && n[a].running
                        && n[b].running implies #[trigger] n[a].os_pid != #[trigger] n[b].os_pid by {
                        assert(old_view[a].running && old_view[b].running);
                        assert(old_view[a].os_pid == n[a].os_pid && old_view[b].os_pid == n[b].os_pid);
                    }
                }
            }
            assert(self@[i as int] == after_look(t, table@)[i as int]);
            proof {
                reveal_with_fuel(exits_upto, 1);
            }
            i = i + 1;
        }
        proof {
            assert(self@ =~= after_look(t, table@));
        }
        Ok(())
    }
}

/// `b` is an ASCII decimal digit.
pub open spec fn is_digit(b: u8) -> bool {
    48 <= b <= 57
}

/// `s` is a non-empty run of decimal digits.
pub open spec fn all_digits(s: Seq<u8>) -> bool {
    s.len() > 0 && forall|i: int| 0 <= i < s.len() ==> is_digit(#[trigger] s[i])
}

/// The number that the decimal digits `s` write.
pub open spec fn digits_value(s: Seq<u8>) -> nat
    decreases s.len(),
{
    if s.len() == 0 {
        0
    } else {
        digits_value(s.drop_last()) * 10 + (s.last() - 48) as nat
    }
}

/// The position of the last `)` in `s`, or -1.
pub open spec fn last_close(s: Seq<u8>) -> int
    decreases s.len(),
{
    if s.len() == 0 {
        -1
    } else if s.last() == 41 {
        s.len() - 1
    } else {
        last_close(s.drop_last())
    }
}

/// The position of the first space in `s` at or after `from`, or `s.len()`.
pub open spec fn space_from(s: Seq<u8>, from: int) -> int
    decreases s.len() - from,
{
    if from >= s.len() {
        s.len() as int
    } else if s[from] == 32 {
        from
    } else {
        space_from(s, from + 1)
    }
}

/// The number written by the digits `s[from..to]`, when they are digits and it fits a `u32`.
pub open spec fn u32_field(s: Seq<u8>, from: int, to: int) -> Option<u32> {
    let f = s.subrange(from, to);
    if 0 <= from <= to <= s.len() && all_digits(f) && digits_value(f) <= u32::MAX {
        Some(digits_value(f) as u32)
    } else {
        None
    }
}

/// The entry a line of `/proc/<pid>/stat` describes: `pid (name) state ppid ...`, where
/// the name may itself hold `)` and spaces, so the state follows the last `)`. A process
/// in state `Z` (exited, not yet reaped) or `X` (dead) is not running. `None` when the
/// line is not of that form.
pub open spec fn stat_entry(s: Seq<u8>) -> Option<ProcessEntry> {
    let k = last_close(s);
    let p = space_from(s, 0);
    let q = space_from(s, k + 4);
    if k >= 0 && k + 3 < s.len() && s[k + 1] == 32 && s[k + 3] == 32 && q < s.len() {
        match (u32_field(s, 0, p), u32_field(s, k + 4, q)) {
            (Some(pid), Some(ppid)) => Some(
                ProcessEntry { os_pid: pid, parent_os_pid: ppid, running: s[k + 2] != 90 && s[k + 2] != 88 },
            ),
            _ => None,
        }
    } else {
        None
    }
}

proof fn lemma_digits_value_grows(s: Seq<u8>, j: int)
    requires
        0 <= j <= s.len(),
    ensures
        digits_value(s.subrange(0, j)) <= digits_value(s),
    decreases s.len() - j,
{
    if j < s.len() {
        assert(s.subrange(0, s.len() as int) =~= s);
        lemma_digits_value_grows(s.drop_last(), if j < s.len() { j } else { j - 1 });
        assert(s.drop_last().subrange(0, j) =~= s.subrange(0, j));
    } else {
        assert(s.subrange(0, j) =~= s);
    }
}

/// The number written by the digits `s[from..to]`, as `u32_field` says.
fn parse_u32_field(s: &[u8], from: usize, to: usize) -> (r: Option<u32>)
    requires
        from <= to <= s@.len(),
    ensures
        r == u32_field(s@, from as int, to as int),
{
    if from == to {
        return None;
    }
    let ghost f = s@.subrange(from as int, to as int);
    let mut value: u64 = 0;
    let mut j: usize = from;
    while j < to
        invariant
            from <= j <= to <= s@.len(),
            f == s@.subrange(from as int, to as int),
            forall|i: int| from <= i < j ==> is_digit(#[trigger] s@[i]),
            value == digits_value(s@.subrange(from as int, j as int)),
            value <= u32::MAX,
        decreases to - j,
    {
        let b = s[j];
        proof {
            assert(s@.subrange(from as int, j + 1).drop_last() =~= s@.subrange(from as int, j as int));
        }
        if b < 48 || b > 57 {
            proof {
                assert(f[j - from] == b);
                assert(!all_digits(f));
            }
            return None;
        }
        let next: u64 = value * 10 + (b - 48) as u64;
        if next > 0xffff_ffffu64 {
            proof {
                assert(f.subrange(0, j + 1 - from) =~= s@.subrange(from as int, j + 1));
                lemma_digits_value_grows(f, j + 1 - from);
            }
            return None;
        }
        value = next;
        j = j + 1;
    }
    proof {
        assert(s@.subrange(from as int, j as int) =~= f);
        assert forall|i: int| 0 <= i < f.len() implies is_digit(#[trigger] f[i]) by {
            assert(f[i] == s@[from + i]);
        }
    }
    Some(value as u32)
}

impl ProcessEntry {
    /// The entry a line of `/proc/<pid>/stat` describes, as `stat_entry` says.
    pub fn from_stat(s: &[u8]) -> (r: Option<ProcessEntry>)
        ensures
            r == stat_entry(s@),
    {
        // The last `)`.
        let mut k: usize = s.len();
        proof {
            assert(s@.subrange(0, s@.len() as int) =~= s@);
        }
        while k > 0 && s[k - 1] != 41u8
            invariant
                k <= s@.len(),
                last_close(s@) == last_close(s@.subrange(0, k as int)),
            decreases k,
        {
            proof {
                assert(s@.subrange(0, k as int).drop_last() =~= s@.subrange(0, k - 1));
            }
            k = k - 1;
        }
        if k == 0 {
            assert(s@.subrange(0, 0) =~= Seq::<u8>::empty());
            return None;
        }
        proof {
            assert(s@.subrange(0, k as int).last() == s@[k - 1]);
        }
        let close: usize = k - 1;
        assert(last_close(s@) == close as int);
        if s.len() - close <= 3 || s[close + 1] != 32u8 || s[close + 3] != 32u8 {
            return None;
        }
        let p = first_space_from(s, 0);
        let q = first_space_from(s, close + 4);
        if q >= s.len() {
            return None;
        }
        let state = s[close + 2];
        match (parse_u32_field(s, 0, p), parse_u32_field(s, close + 4, q)) {
            (Some(pid), Some(ppid)) => Some(ProcessEntry { os_pid: pid, parent_os_pid: ppid, running: state != 90u8 && state != 88u8 }),
            _ => None,
        }
    }
}

/// The position of the first space in `s` at or after `from`, as `space_from` says.
fn first_space_from(s: &[u8], from: usize) -> (r: usize)
    requires
        from <= s@.len(),
    ensures
        r as int == space_from(s@, from as int),
        from <= r <= s@.len(),
{
    let mut j: usize = from;
    while j < s.len()
        invariant
            from <= j <= s@.len(),
            space_from(s@, from as int) == space_from(s@, j as int),
        decreases s@.len() - j,
    {
        if s[j] == 32u8 {
            return j;
        }
        j = j + 1;
    }
    j
}

/// Raw Unix bytes as native text.
pub open spec fn unix_text(b: Seq<u8>) -> NativeStringView {
    NativeStringView { encoding: NativeEncoding::UnixBytes, units: b }
}

/// Reading `s` from the left: the fields each ended by a 0 byte so far, and the bytes of
/// the field still open.
pub open spec fn nul_split(s: Seq<u8>) -> (Seq<Seq<u8>>, Seq<u8>)
    decreases s.len(),
{
    if s.len() == 0 {
        (Seq::empty(), Seq::empty())
    } else {
        let (fields, open) = nul_split(s.drop_last());
        if s.last() == 0 {
            (fields.push(open), Seq::empty())
        } else {
            (fields, open.push(s.last()))
        }
    }
}

/// All fields but the first.
pub open spec fn after_first(f: Seq<Seq<u8>>) -> Seq<Seq<u8>> {
    if f.len() == 0 {
        Seq::empty()
    } else {
        f.drop_first()
    }
}

/// The command of a running process from what `/proc/<pid>` shows: the executable, the
/// `cmdline` file, whose 0-terminated fields are the program's name and then its
/// arguments, and the working directory.
pub open spec fn proc_command(executable: Seq<u8>, cmdline: Seq<u8>, working_directory: Seq<u8>) -> CommandSpecView {
    CommandSpecView {
        executable: unix_text(executable),
        arguments: after_first(nul_split(cmdline).0).map_values(|a: Seq<u8>| unix_text(a)),
        working_directory: unix_text(working_directory),
    }
}

/// The command of a running process, as `proc_command` says.
pub fn process_command(executable: Vec<u8>, cmdline: &[u8], working_directory: Vec<u8>) -> (r: CommandSpec)
    ensures
        r@ == proc_command(executable@, cmdline@, working_directory@),
{
    let mut arguments: Vec<NativeString> = Vec::new();
    let mut open: Vec<u8> = Vec::new();
    let mut seen_first: bool = false;
    let mut j: usize = 0;
    proof {
        assert(cmdline@.subrange(0, 0) =~= Seq::<u8>::empty());
    }
    while j < cmdline.len()
        invariant
            j <= cmdline@.len(),
            seen_first == (nul_split(cmdline@.subrange(0, j as int)).0.len() > 0),
            open@ == nul_split(cmdline@.subrange(0, j as int)).1,
            native_views(arguments@) == after_first(nul_split(cmdline@.subrange(0, j as int)).0).map_values(
                |a: Seq<u8>| unix_text(a),
            ),
        decreases cmdline@.len() - j,
    {
        let b = cmdline[j];
        let ghost before = nul_split(cmdline@.subrange(0, j as int));
        proof {
            assert(cmdline@.subrange(0, j + 1).drop_last() =~= cmdline@.subrange(0, j as int));
            assert(cmdline@.subrange(0, j + 1).last() == b);
        }
        if b == 0u8 {
            let field = open;
            open = Vec::new();
            if seen_first {
                let ghost old_args = native_views(arguments@);
                arguments.push(NativeString::from_unix_bytes(field));
                proof {
                    let f = before.0.push(before.1);
                    assert(after_first(f) =~= after_first(before.0).push(before.1));
                    assert(native_views(arguments@) =~= old_args.push(unix_text(field@)));
                    assert(after_first(f).map_values(|a: Seq<u8>| unix_text(a)) =~= after_first(before.0).map_values(
                        |a: Seq<u8>| unix_text(a),
                    ).push(unix_text(before.1)));
                }
            } else {
                proof {
                    let f = before.0.push(before.1);
                    assert(after_first(f) =~= Seq::<Seq<u8>>::empty());
                    assert(after_first(before.0) =~= Seq::<Seq<u8>>::empty());
                }
            }
            seen_first = true;
            assert(open@ =~= Seq::<u8>::empty());
        } else {
            open.push(b);
        }
        j = j + 1;
    }
    proof {
        assert(cmdline@.subrange(0, cmdline@.len() as int) =~= cmdline@);
    }
    CommandSpec::new(NativePath::from_unix_bytes(executable), arguments, NativePath::from_unix_bytes(working_directory))
}

/// Whether the look at the process table shows `pid` running.
fn table_shows(table: &[ProcessEntry], pid: u32) -> (r: bool)
    ensures
        r == shown_running(table@, pid),
{
    let mut j: usize = 0;
    while j < table.len()
        invariant
            j <= table@.len(),
            forall|k: int| 0 <= k < j ==> !(table@[k].os_pid == pid && table@[k].running),
        decreases table@.len() - j,
    {
        if table[j].os_pid == pid && table[j].running {
            assert(table@[j as int].running);
            return true;
        }
        j = j + 1;
    }
    false
}

} // verus!
