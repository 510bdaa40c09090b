//! What changed in a workspace between two looks at its files, and how the changes are
//! recorded.
//!
//! A look lists each file with its size and modification time. A file in scope is
//! created when the first look does not list it, modified when its size or modification
//! time differs, and deleted when the second look no longer lists it.

use vstd::prelude::*;
use crate::capture::{prefix_of, CaptureError, CaptureRequest, ObservationSink};
use crate::event::{
    FileMutationKind, FileMutationKindView, FileMutationObserved, FileMutationObservedView,
    ObservationSource, ObservationSourceKind, ObservationSourceView, ObservationView, RuntimeKindView,
    RuntimeObservation, RuntimeObservationKind, RuntimeObservationView,
};
use crate::identity::SourceId;
use crate::linux_capture::appended;
use crate::native::{NativePath, NativeStringView};
use crate::recorder::recording_failure;
use crate::scope::{in_scope, WorkspaceScope, WorkspaceScopeView};
use crate::time::{ObservationTime, ObservationTimeView};

verus! {

/// One file in a look at the workspace: its path, size in bytes and modification time in
/// nanoseconds since the Unix epoch.
#[derive(Clone, Debug, PartialEq, Eq)]
pub struct FileRecord {
    pub path: NativePath,
    pub size: u64,
    pub modified: i128,
}

pub struct FileRecordView {
    pub path: NativeStringView,
    pub size: u64,
    pub modified: i128,
}

impl View for FileRecord {
    type V = FileRecordView;

    open spec fn view(&self) -> FileRecordView {
        FileRecordView { path: self.path@, size: self.size, modified: self.modified }
    }
}

pub open spec fn record_views(s: Seq<FileRecord>) -> Seq<FileRecordView> {
    s.map_values(|r: FileRecord| r@)
}

pub open spec fn mutation_views(s: Seq<FileMutationObserved>) -> Seq<FileMutationObservedView> {
    s.map_values(|m: FileMutationObserved| m@)
}

/// The last record of `s` for `path`.
pub open spec fn record_for(s: Seq<FileRecordView>, path: NativeStringView) -> Option<FileRecordView>
    decreases s.len(),
{
    if s.len() == 0 {
        None
    } else if s.last().path == path {
        Some(s.last())
    } else {
        record_for(s.drop_last(), path)
    }
}

/// How a file of the second look changed since the first, if it is in scope and changed.
pub open spec fn change_of(scope: WorkspaceScopeView, before: Seq<FileRecordView>, now: FileRecordView) -> Option<
    FileMutationKindView,
> {
    if !in_scope(scope, now.path) {
        None
    } else {
        match record_for(before, now.path) {
            None => Some(FileMutationKindView::Created),
            Some(b) => if b.size != now.size || b.modified != now.modified {
                Some(FileMutationKindView::Modified)
            } else {
                None
            },
        }
    }
}

/// The files of `after` created or modified since `before`, in the order of `after`.
pub open spec fn created_or_modified(
    scope: WorkspaceScopeView,
    before: Seq<FileRecordView>,
    after: Seq<FileRecordView>,
) -> Seq<FileMutationObservedView>
    decreases after.len(),
{
    if after.len() == 0 {
        Seq::empty()
    } else {
        let rest = created_or_modified(scope, before, after.drop_last());
        match change_of(scope, before, after.last()) {
            Some(kind) => rest.push(FileMutationObservedView { path: after.last().path, kind }),
            None => rest,
        }
    }
}

/// The files of `before` in scope that `after` no longer lists, in the order of `before`.
pub open spec fn deleted(
    scope: WorkspaceScopeView,
    before: Seq<FileRecordView>,
    after: Seq<FileRecordView>,
) -> Seq<FileMutationObservedView>
    decreases before.len(),
{
    if before.len() == 0 {
        Seq::empty()
    } else {
        let rest = deleted(scope, before.drop_last(), after);
        let b = before.last();
        if in_scope(scope, b.path) && record_for(after, b.path) is None {
            rest.push(FileMutationObservedView { path: b.path, kind: FileMutationKindView::Deleted })
        } else {
            rest
        }
    }
}

/// The changes between two looks: creations and modifications, then deletions.
pub open spec fn changes_between(
    scope: WorkspaceScopeView,
    before: Seq<FileRecordView>,
    after: Seq<FileRecordView>,
) -> Seq<FileMutationObservedView> {
    created_or_modified(scope, before, after) + deleted(scope, before, after)
}

/// No two records of a look name the same path.
pub open spec fn distinct_paths(s: Seq<FileRecordView>) -> bool {
    forall|i: int, j: int| 0 <= i < j < s.len() ==> #[trigger] s[i].path != #[trigger] s[j].path
}

proof fn lemma_record_for_member(s: Seq<FileRecordView>, i: int)
    requires
        distinct_paths(s),
        0 <= i < s.len(),
    ensures
        record_for(s, s[i].path) == Some(s[i]),
    decreases s.len(),
{
    if i < s.len() - 1 {
        assert(s[i].path != s[s.len() - 1].path);
        lemma_record_for_member(s.drop_last(), i);
    }
}

proof fn lemma_nothing_created_or_modified(scope: WorkspaceScopeView, s: Seq<FileRecordView>, n: int)
    requires
        distinct_paths(s),
        0 <= n <= s.len(),
    ensures
        created_or_modified(scope, s, s.subrange(0, n)) == Seq::<FileMutationObservedView>::empty(),
    decreases n,
{
    if n > 0 {
        assert(s.subrange(0, n).drop_last() =~= s.subrange(0, n - 1));
        lemma_nothing_created_or_modified(scope, s, n - 1);
        lemma_record_for_member(s, n - 1);
    }
}

proof fn lemma_nothing_deleted(scope: WorkspaceScopeView, s: Seq<FileRecordView>, n: int)
    requires
        distinct_paths(s),
        0 <= n <= s.len(),
    ensures
        deleted(scope, s.subrange(0, n), s) == Seq::<FileMutationObservedView>::empty(),
    decreases n,
{
    if n > 0 {
        assert(s.subrange(0, n).drop_last() =~= s.subrange(0, n - 1));
        lemma_nothing_deleted(scope, s, n - 1);
        lemma_record_for_member(s, n - 1);
    }
}

/// Two looks at a workspace that did not change show no change.
pub proof fn lemma_unchanged_workspace_shows_no_change(scope: WorkspaceScopeView, look: Seq<FileRecordView>)
    requires
        distinct_paths(look),
    ensures
        changes_between(scope, look, look) == Seq::<FileMutationObservedView>::empty(),
{
    lemma_nothing_created_or_modified(scope, look, look.len() as int);
    lemma_nothing_deleted(scope, look, look.len() as int);
    assert(look.subrange(0, look.len() as int) =~= look);
    assert(changes_between(scope, look, look) =~= Seq::<FileMutationObservedView>::empty());
}

/// The source that reports file mutations in the workspace.
pub open spec fn workspace_source() -> ObservationSourceView {
    ObservationSourceView { id: 2, kind: ObservationSourceKind::FileSystem }
}

/// What is recorded for a file mutation.
pub open spec fn mutation_observation(m: FileMutationObservedView, at: ObservationTimeView) -> RuntimeObservationView {
    RuntimeObservationView { source: workspace_source(), observed_at: at, kind: RuntimeKindView::FileMutationObserved(m) }
}

fn same_path(a: &NativePath, b: &NativePath) -> (r: bool)
    ensures
        r == (a@ == b@),
{
    if a.encoding() != b.encoding() {
        return false;
    }
    let x = a.units();
    let y = b.units();
    if x.len() != y.len() {
        return false;
    }
    let mut i: usize = 0;
    while i < x.len()
        invariant
            x@ == a@.units,
            y@ == b@.units,
            a@.encoding == b@.encoding,
            x@.len() == y@.len(),
            i <= x@.len(),
            forall|k: int| 0 <= k < i ==> x@[k] == y@[k],
        decreases x@.len() - i,
    {
        if x[i] != y[i] {
            assert(x@[i as int] != y@[i as int]);
            assert(a@.units != b@.units);
            return false;
        }
        i = i + 1;
    }
    assert(x@ =~= y@);
    true
}

/// The position in `s` of the last record for `path`.
fn position_of(s: &[FileRecord], path: &NativePath) -> (r: Option<usize>)
    ensures
        match r {
            Some(i) => i < s@.len() && record_for(record_views(s@), path@) == Some(s@[i as int]@),
            None => record_for(record_views(s@), path@) is None,
        },
{
    let ghost v = record_views(s@);
    let mut found: Option<usize> = None;
    let mut i: usize = 0;
    proof {
        assert(v.subrange(0, 0) =~= Seq::<FileRecordView>::empty());
    }
    while i < s.len()
        invariant
            i <= s@.len(),
            v == record_views(s@),
            match found {
                Some(k) => k < i && record_for(v.subrange(0, i as int), path@) == Some(s@[k as int]@),
                None => record_for(v.subrange(0, i as int), path@) is None,
            },
        decreases s@.len() - i,
    {
        proof {
            assert(v.subrange(0, i + 1).drop_last() =~= v.subrange(0, i as int));
            assert(v.subrange(0, i + 1).last() == s@[i as int]@);
        }
        if same_path(&s[i].path, path) {
            found = Some(i);
        }
        i = i + 1;
    }
    proof {
        assert(v.subrange(0, s@.len() as int) =~= v);
    }
    found
}

/// The changes between two looks at the workspace, as `changes_between` says.
pub fn file_changes(scope: &WorkspaceScope, before: &[FileRecord], after: &[FileRecord]) -> (r: Vec<FileMutationObserved>)
    ensures
        mutation_views(r@) == changes_between(scope@, record_views(before@), record_views(after@)),
{
    let ghost bv = record_views(before@);
    let ghost av = record_views(after@);
    let mut out: Vec<FileMutationObserved> = Vec::new();
    let mut i: usize = 0;
    proof {
        assert(av.subrange(0, 0) =~= Seq::<FileRecordView>::empty());
        assert(mutation_views(out@) =~= Seq::<FileMutationObservedView>::empty());
    }
    while i < after.len()
        invariant
            i <= after@.len(),
            bv == record_views(before@),
            av == record_views(after@),
            mutation_views(out@) == created_or_modified(scope@, bv, av.subrange(0, i as int)),
        decreases after@.len() - i,
    {
        let a = &after[i];
        proof {
            assert(av.subrange(0, i + 1).drop_last() =~= av.subrange(0, i as int));
            assert(av.subrange(0, i + 1).last() == a@);
        }
        let ghost prev = mutation_views(out@);
        if scope.is_in_scope(&a.path) {
            match position_of(before, &a.path) {
                None => {
                    out.push(FileMutationObserved { path: a.path.duplicate(), kind: FileMutationKind::Created });
                    assert(mutation_views(out@) =~= prev.push(FileMutationObservedView { path: a@.path, kind: FileMutationKindView::Created }));
                },
                Some(k) => {
                    if before[k].size != a.size || before[k].modified != a.modified {
                        out.push(FileMutationObserved { path: a.path.duplicate(), kind: FileMutationKind::Modified });
                        assert(mutation_views(out@) =~= prev.push(FileMutationObservedView { path: a@.path, kind: FileMutationKindView::Modified }));
                    }
                },
            }
        }
        i = i + 1;
    }
    proof {
        assert(av.subrange(0, after@.len() as int) =~= av);
    }
    let ghost first = mutation_views(out@);
    let mut j: usize = 0;
    proof {
        assert(bv.subrange(0, 0) =~= Seq::<FileRecordView>::empty());
        assert(first =~= first + Seq::<FileMutationObservedView>::empty());
    }
    while j < before.len()
        invariant
            j <= before@.len(),
            bv == record_views(before@),
            av == record_views(after@),
            first == created_or_modified(scope@, bv, av),
            mutation_views(out@) == first + deleted(scope@, bv.subrange(0, j as int), av),
        decreases before@.len() - j,
    {
        let b = &before[j];
        proof {
            assert(bv.subrange(0, j + 1).drop_last() =~= bv.subrange(0, j as int));
            assert(bv.subrange(0, j + 1).last() == b@);
        }
        let ghost prev = mutation_views(out@);
        if scope.is_in_scope(&b.path) {
            match position_of(after, &b.path) {
                None => {
                    out.push(FileMutationObserved { path: b.path.duplicate(), kind: FileMutationKind::Deleted });
                    assert(mutation_views(out@) =~= prev.push(FileMutationObservedView { path: b@.path, kind: FileMutationKindView::Deleted }));
                    assert(first + deleted(scope@, bv.subrange(0, j + 1), av) =~= (first + deleted(scope@, bv.subrange(0, j as int), av)).push(
                        FileMutationObservedView { path: b@.path, kind: FileMutationKindView::Deleted }));
                },
                Some(_) => {},
            }
        }
        j = j + 1;
    }
    proof {
        assert(bv.subrange(0, before@.len() as int) =~= bv);
    }
    out
}

/// Records each change, in order, as observed by the workspace source at `observed_at`.
pub fn record_file_changes<K: ObservationSink>(
    sink: &mut K,
    changes: Vec<FileMutationObserved>,
    observed_at: ObservationTime,
) -> (r: Result<(), CaptureError>)
    requires
        old(sink).ready(),
    ensures
        final(sink).ready(),
        prefix_of(old(sink).accepted(), final(sink).accepted()),
        r is Ok ==> appended(
            old(sink).accepted(),
            final(sink).accepted(),
            mutation_views(changes@).map_values(|m: FileMutationObservedView| mutation_observation(m, observed_at@)),
        ),
        r matches Err(e) ==> e matches CaptureError::ObservationSink(se) && recording_failure(se, final(sink).accepted().len()),
{
    let ghost start = sink.accepted();
    let ghost all = mutation_views(changes@).map_values(|m: FileMutationObservedView| mutation_observation(m, observed_at@));
    proof {
        assert(start.subrange(0, start.len() as int) =~= start);
        assert(all.subrange(0, 0) =~= Seq::<RuntimeObservationView>::empty());
    }
    let mut i: usize = 0;
    while i < changes.len()
        invariant
            i <= changes@.len(),
            all == mutation_views(changes@).map_values(|m: FileMutationObservedView| mutation_observation(m, observed_at@)),
            start == old(sink).accepted(),
            sink.ready(),
            prefix_of(start, sink.accepted()),
            appended(start, sink.accepted(), all.subrange(0, i as int)),
        decreases changes@.len() - i,
    {
        let ghost before = sink.accepted();
        let c = &changes[i];
        let observation = RuntimeObservation::new(
            ObservationSource::new(SourceId::from_u128(2), ObservationSourceKind::FileSystem),
            observed_at,
            RuntimeObservationKind::FileMutationObserved(
                FileMutationObserved { path: c.path.duplicate(), kind: c.kind.duplicate() },
            ),
        );
        assert(observation@ == all[i as int]);
        match sink.record(observation) {
            Ok(()) => {},
            Err(e) => {
                assert(sink.accepted() == before);
                return Err(CaptureError::ObservationSink(e));
            },
        }
        proof {
            let after = sink.accepted();
            assert(after.subrange(0, before.len() as int) =~= before);
            assert(after.subrange(0, start.len() as int) =~= start);
            assert forall|k: int| 0 <= k < i + 1 implies #[trigger] after[start.len() + k].observation
                == ObservationView::Runtime(all.subrange(0, i + 1)[k]) by {
                if k < i {
                    assert(after[start.len() + k] == before[start.len() + k]);
                } else {
                    assert(after[start.len() + k] == after.last());
                }
            }
        }
        i = i + 1;
    }
    proof {
        assert(all.subrange(0, changes@.len() as int) =~= all);
    }
    Ok(())
}

/// Records what changed in the request's workspace between the looks before and after the
/// command ran; a request that names no workspace records nothing.
pub fn record_workspace_changes<K: ObservationSink>(
    sink: &mut K,
    request: &CaptureRequest,
    before: &[FileRecord],
    after: &[FileRecord],
    observed_at: ObservationTime,
) -> (r: Result<(), CaptureError>)
    requires
        old(sink).ready(),
    ensures
        final(sink).ready(),
        prefix_of(old(sink).accepted(), final(sink).accepted()),
        r is Ok ==> appended(
            old(sink).accepted(),
            final(sink).accepted(),
            match request@.workspace_scope {
                Some(scope) => changes_between(scope, record_views(before@), record_views(after@)).map_values(
                    |m: FileMutationObservedView| mutation_observation(m, observed_at@),
                ),
                None => Seq::empty(),
            },
        ),
        r matches Err(e) ==> e matches CaptureError::ObservationSink(se) && recording_failure(se, final(sink).accepted().len()),
{
    match request.workspace_scope() {
        Some(scope) => {
            let changes = file_changes(scope, before, after);
            proof {
                assert(mutation_views(changes@).map_values(|m: FileMutationObservedView| mutation_observation(m, observed_at@))
                    =~= changes_between(scope@, record_views(before@), record_views(after@)).map_values(
                    |m: FileMutationObservedView| mutation_observation(m, observed_at@),
                ));
            }
            record_file_changes(sink, changes, observed_at)
        },
        None => {
            proof {
                let a = sink.accepted();
                assert(a.subrange(0, a.len() as int) =~= a);
            }
            Ok(())
        },
    }
}

} // verus!
