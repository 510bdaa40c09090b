//! Which paths count as part of the observed workspace.

use vstd::prelude::*;
use crate::native::{lossy_text, NativePath, NativeStringView};
use crate::text::{push_str, str_equal};

verus! {

/// The observed workspace: its root, and the recorder's own database, which is never
/// part of it.
#[derive(Clone, Debug, Eq, PartialEq)]
pub struct WorkspaceScope {
    /// Absolute path to the recorder-owned database file (if any). Always excluded.
    pub db_path: Option<NativePath>,
    /// Workspace root being observed.
    pub workspace_root: NativePath,
}

pub struct WorkspaceScopeView {
    pub db_path: Option<NativeStringView>,
    pub workspace_root: NativeStringView,
}

pub open spec fn opt_path_view(p: Option<NativePath>) -> Option<NativeStringView> {
    match p {
        Some(p) => Some(p@),
        None => None,
    }
}

impl View for WorkspaceScope {
    type V = WorkspaceScopeView;

    open spec fn view(&self) -> WorkspaceScopeView {
        WorkspaceScopeView { db_path: opt_path_view(self.db_path), workspace_root: self.workspace_root@ }
    }
}

impl WorkspaceScope {
    pub fn new(workspace_root: NativePath, db_path: Option<NativePath>) -> (r: Self)
        ensures
            r@ == (WorkspaceScopeView { db_path: opt_path_view(db_path), workspace_root: workspace_root@ }),
    {
        WorkspaceScope { workspace_root, db_path }
    }

    pub fn duplicate(&self) -> (r: Self)
        ensures
            r@ == self@,
    {
        let db_path = match &self.db_path {
            Some(p) => Some(p.duplicate()),
            None => None,
        };
        WorkspaceScope { db_path, workspace_root: self.workspace_root.duplicate() }
    }
}


// ---------------------------------------------------------------------------
// Paths as components
// ---------------------------------------------------------------------------

/// A component of a Unix path.
pub enum PathComponent {
    RootDir,
    CurDir,
    ParentDir,
    Normal(Seq<u8>),
}

/// A path component, as computed.
pub enum Component {
    RootDir,
    CurDir,
    ParentDir,
    Normal(Vec<u8>),
}

impl View for Component {
    type V = PathComponent;

    open spec fn view(&self) -> PathComponent {
        match self {
            Component::RootDir => PathComponent::RootDir,
            Component::CurDir => PathComponent::CurDir,
            Component::ParentDir => PathComponent::ParentDir,
            Component::Normal(b) => PathComponent::Normal(b@),
        }
    }
}

pub open spec fn component_views(s: Seq<Component>) -> Seq<PathComponent> {
    s.map_values(|c: Component| c@)
}

pub open spec fn slash() -> u8 {
    0x2f
}

pub open spec fn dot() -> u8 {
    0x2e
}

/// The pieces of a byte string between `/` separators, empty ones included.
pub open spec fn split_slash(b: Seq<u8>) -> Seq<Seq<u8>>
    decreases b.len(),
{
    if b.len() == 0 {
        seq![Seq::empty()]
    } else {
        let s = split_slash(b.drop_last());
        if b.last() == slash() {
            s.push(Seq::empty())
        } else {
            s.update(s.len() - 1, s.last().push(b.last()))
        }
    }
}

/// The component a piece makes: none for an empty piece or `.`, `ParentDir` for `..`.
pub open spec fn piece_components(p: Seq<u8>) -> Seq<PathComponent> {
    if p.len() == 0 || p == seq![dot()] {
        Seq::empty()
    } else if p == seq![dot(), dot()] {
        seq![PathComponent::ParentDir]
    } else {
        seq![PathComponent::Normal(p)]
    }
}

pub open spec fn body_components(pieces: Seq<Seq<u8>>) -> Seq<PathComponent>
    decreases pieces.len(),
{
    if pieces.len() == 0 {
        Seq::empty()
    } else {
        body_components(pieces.drop_last()) + piece_components(pieces.last())
    }
}

/// The components of a Unix path, as `Path::components` yields them: a leading root, or a
/// leading `.` piece, then the pieces other than empty ones and `.`.
pub open spec fn components(b: Seq<u8>) -> Seq<PathComponent> {
    if b.len() > 0 && b[0] == slash() {
        seq![PathComponent::RootDir] + body_components(split_slash(b.subrange(1, b.len() as int)))
    } else if b.len() > 0 && b[0] == dot() && (b.len() == 1 || b[1] == slash()) {
        seq![PathComponent::CurDir] + body_components(split_slash(b.subrange(1, b.len() as int)))
    } else {
        body_components(split_slash(b))
    }
}

/// The components of `path` after those of `base`, when `base`'s components begin it.
pub open spec fn relative_components(path: Seq<u8>, base: Seq<u8>) -> Option<Seq<PathComponent>> {
    let p = components(path);
    let q = components(base);
    if q.len() <= p.len() && p.subrange(0, q.len() as int) == q {
        Some(p.subrange(q.len() as int, p.len() as int))
    } else {
        None
    }
}

/// The bytes of `.provenance`.
pub open spec fn recorder_dir_name() -> Seq<u8> {
    seq![0x2eu8, 0x70, 0x72, 0x6f, 0x76, 0x65, 0x6e, 0x61, 0x6e, 0x63, 0x65]
}

/// The bytes of `.git`.
pub open spec fn git_dir_name() -> Seq<u8> {
    seq![0x2eu8, 0x67, 0x69, 0x74]
}

/// The bytes of `target`.
pub open spec fn target_dir_name() -> Seq<u8> {
    seq![0x74u8, 0x61, 0x72, 0x67, 0x65, 0x74]
}

/// The bytes of `db-wal`.
pub open spec fn wal_extension() -> Seq<u8> {
    seq![0x64u8, 0x62, 0x2d, 0x77, 0x61, 0x6c]
}

/// The bytes of `db-shm`.
pub open spec fn shm_extension() -> Seq<u8> {
    seq![0x64u8, 0x62, 0x2d, 0x73, 0x68, 0x6d]
}

/// A component that keeps a path out of the workspace: `.provenance`, `.git` or `target`.
pub open spec fn excluded_component(c: PathComponent) -> bool {
    c matches PathComponent::Normal(n) && (n == recorder_dir_name() || n == git_dir_name() || n == target_dir_name())
}

/// The stem of a file name: before its last `.`, unless that `.` begins the name.
pub open spec fn stem_length(name: Seq<u8>) -> int
    decreases name.len(),
{
    last_dot(name, name.len() as int)
}

/// The position of the last `.` before `end` that is not at 0, or `name.len()` when none.
pub open spec fn last_dot(name: Seq<u8>, end: int) -> int
    decreases end,
{
    if end <= 1 {
        name.len() as int
    } else if name[end - 1] == dot() {
        end - 1
    } else {
        last_dot(name, end - 1)
    }
}

/// The components of a path after `with_extension(ext)`: its last component, when it is a
/// file name, becomes the name's stem, a `.` and `ext`.
pub open spec fn with_extension_components(c: Seq<PathComponent>, ext: Seq<u8>) -> Seq<PathComponent> {
    if c.len() > 0 && c.last() is Normal {
        let name = c.last()->Normal_0;
        c.update(c.len() - 1, PathComponent::Normal(name.subrange(0, stem_length(name)) + seq![dot()] + ext))
    } else {
        c
    }
}

/// Some component is excluded.
pub open spec fn has_excluded(rel: Seq<PathComponent>) -> bool {
    exists|i: int| 0 <= i < rel.len() && #[trigger] excluded_component(rel[i])
}

/// Whether a path counts as part of the observed workspace: it lies under the root, no
/// component is `.provenance`, `.git` or `target`, and it is not the recorder's database,
/// nor its `-wal` or `-shm` companion, nor the database with extension `db-wal` or
/// `db-shm`.
pub open spec fn in_scope(scope: WorkspaceScopeView, path: NativeStringView) -> bool {
    match relative_components(path.units, scope.workspace_root.units) {
        None => false,
        Some(rel) => if has_excluded(rel) {
            false
        } else {
            match scope.db_path {
                None => true,
                Some(db) => {
                    let pc = components(path.units);
                    let dc = components(db.units);
                    !(pc == dc || lossy_text(path) == lossy_text(db) + "-wal"@ || lossy_text(path) == lossy_text(db)
                        + "-shm"@ || pc == with_extension_components(dc, wal_extension()) || pc
                        == with_extension_components(dc, shm_extension()))
                },
            }
        },
    }
}

fn copy_bytes_of(b: &Vec<u8>) -> (r: Vec<u8>)
    ensures
        r@ == b@,
{
    crate::native::copy_bytes(b.as_slice())
}

fn push_piece(out: &mut Vec<Component>, piece: Vec<u8>)
    ensures
        component_views(final(out)@) == component_views(old(out)@) + piece_components(piece@),
{
    let ghost before = out@;
    let n = piece.len();
    if n == 0 || (n == 1 && piece[0] == 0x2e) {
        assert(n == 1 ==> piece@ =~= seq![dot()]);
        assert(component_views(out@) =~= component_views(before) + piece_components(piece@));
    } else if n == 2 && piece[0] == 0x2e && piece[1] == 0x2e {
        assert(piece@ =~= seq![dot(), dot()]);
        out.push(Component::ParentDir);
        assert(component_views(out@) =~= component_views(before) + piece_components(piece@));
    } else {
        assert(piece@ != seq![dot()]) by {
            if n == 1 {
                assert(piece@[0] != dot());
            }
        }
        assert(piece@ != seq![dot(), dot()]) by {
            if n == 2 {
                assert(piece@[0] != dot() || piece@[1] != dot());
            }
        }
        out.push(Component::Normal(piece));
        assert(component_views(out@) =~= component_views(before) + piece_components(piece@));
    }
}

/// The components of the bytes from `start` on, pieces only.
fn body_components_exec(b: &[u8], start: usize, out: &mut Vec<Component>)
    requires
        start <= b@.len(),
    ensures
        component_views(final(out)@) == component_views(old(out)@) + body_components(
            split_slash(b@.subrange(start as int, b@.len() as int)),
        ),
{
    let ghost base = component_views(out@);
    let ghost mut finished: Seq<Seq<u8>> = Seq::empty();
    let mut current: Vec<u8> = Vec::new();
    let mut i: usize = start;
    proof {
        assert(b@.subrange(start as int, start as int) =~= Seq::<u8>::empty());
        assert(split_slash(Seq::<u8>::empty()) =~= finished.push(current@));
    }
    while i < b.len()
        invariant
            start <= i <= b@.len(),
            split_slash(b@.subrange(start as int, i as int)) == finished.push(current@),
            component_views(out@) == base + body_components(finished),
        decreases b@.len() - i,
    {
        let ghost pre = b@.subrange(start as int, i as int);
        let ghost next = b@.subrange(start as int, i + 1);
        assert(next.drop_last() =~= pre);
        assert(next.last() == b@[i as int]);
        if b[i] == 0x2f {
            let piece = current;
            current = Vec::new();
            push_piece(out, piece);
            proof {
                let old_finished = finished;
                finished = finished.push(piece@);
                assert(finished.drop_last() =~= old_finished);
                assert(component_views(out@) =~= base + body_components(finished));
                assert(split_slash(next) =~= finished.push(current@));
            }
        } else {
            let ghost old_current = current@;
            current.push(b[i]);
            proof {
                assert(split_slash(next) =~= finished.push(current@));
            }
        }
        i = i + 1;
    }
    let ghost last_piece = current@;
    push_piece(out, current);
    proof {
        let pieces = finished.push(last_piece);
        assert(pieces.drop_last() =~= finished);
        assert(component_views(out@) =~= base + body_components(pieces));
    }
}

/// The components of a Unix path.
pub fn path_components(b: &[u8]) -> (r: Vec<Component>)
    ensures
        component_views(r@) == components(b@),
{
    let mut out: Vec<Component> = Vec::new();
    if b.len() > 0 && b[0] == 0x2f {
        out.push(Component::RootDir);
        body_components_exec(b, 1, &mut out);
    } else if b.len() > 0 && b[0] == 0x2e && (b.len() == 1 || b[1] == 0x2f) {
        out.push(Component::CurDir);
        body_components_exec(b, 1, &mut out);
    } else {
        body_components_exec(b, 0, &mut out);
        assert(b@.subrange(0, b@.len() as int) =~= b@);
    }
    out
}

fn bytes_equal(a: &[u8], b: &[u8]) -> (r: bool)
    ensures
        r == (a@ == b@),
{
    if a.len() != b.len() {
        return false;
    }
    let mut i: usize = 0;
    while i < a.len()
        invariant
            a@.len() == b@.len(),
            i <= a@.len(),
            forall|k: int| 0 <= k < i ==> a@[k] == b@[k],
        decreases a@.len() - i,
    {
        if a[i] != b[i] {
            return false;
        }
        i = i + 1;
    }
    assert(a@ =~= b@);
    true
}

fn component_equal(a: &Component, b: &Component) -> (r: bool)
    ensures
        r == (a@ == b@),
{
    match (a, b) {
        (Component::RootDir, Component::RootDir) => true,
        (Component::CurDir, Component::CurDir) => true,
        (Component::ParentDir, Component::ParentDir) => true,
        (Component::Normal(x), Component::Normal(y)) => bytes_equal(x.as_slice(), y.as_slice()),
        _ => false,
    }
}

/// Whether `a[offset..offset + b.len()]` equals `b`, component by component.
fn components_match_at(a: &Vec<Component>, offset: usize, b: &Vec<Component>) -> (r: bool)
    requires
        offset + b@.len() <= a@.len(),
    ensures
        r == (component_views(a@).subrange(offset as int, offset + b@.len()) == component_views(b@)),
{
    let ghost av = component_views(a@);
    let ghost bv = component_views(b@);
    let _n = a.len();
    let mut i: usize = 0;
    while i < b.len()
        invariant
            offset + b@.len() <= a@.len(),
            a@.len() <= usize::MAX,
            av == component_views(a@),
            bv == component_views(b@),
            i <= b@.len(),
            forall|k: int| 0 <= k < i ==> av[offset + k] == bv[k],
        decreases b@.len() - i,
    {
        if !component_equal(&a[offset + i], &b[i]) {
            assert(av.subrange(offset as int, offset + b@.len())[i as int] != bv[i as int]);
            return false;
        }
        i = i + 1;
    }
    assert(av.subrange(offset as int, offset + b@.len()) =~= bv);
    true
}

fn components_equal(a: &Vec<Component>, b: &Vec<Component>) -> (r: bool)
    ensures
        r == (component_views(a@) == component_views(b@)),
{
    if a.len() != b.len() {
        assert(component_views(a@).len() != component_views(b@).len());
        return false;
    }
    let r = components_match_at(a, 0, b);
    assert(component_views(a@).subrange(0, a@.len() as int) =~= component_views(a@));
    r
}

fn is_excluded(c: &Component) -> (r: bool)
    ensures
        r == excluded_component(c@),
{
    match c {
        Component::Normal(n) => {
            let p: [u8; 11] = [0x2e, 0x70, 0x72, 0x6f, 0x76, 0x65, 0x6e, 0x61, 0x6e, 0x63, 0x65];
            let g: [u8; 4] = [0x2e, 0x67, 0x69, 0x74];
            let t: [u8; 6] = [0x74, 0x61, 0x72, 0x67, 0x65, 0x74];
            assert(p@ =~= recorder_dir_name());
            assert(g@ =~= git_dir_name());
            assert(t@ =~= target_dir_name());
            bytes_equal(n.as_slice(), p.as_slice()) || bytes_equal(n.as_slice(), g.as_slice()) || bytes_equal(
                n.as_slice(),
                t.as_slice(),
            )
        },
        _ => false,
    }
}

fn stem_len_exec(name: &Vec<u8>) -> (r: usize)
    ensures
        r == stem_length(name@),
{
    let mut end: usize = name.len();
    while end > 1
        invariant
            end <= name@.len(),
            last_dot(name@, name@.len() as int) == last_dot(name@, end as int),
        decreases end,
    {
        if name[end - 1] == 0x2e {
            return end - 1;
        }
        end = end - 1;
    }
    name.len()
}

/// The name with its extension replaced: the stem, a `.` and `ext`.
fn renamed_with_extension(name: &Vec<u8>, ext: &[u8]) -> (r: Vec<u8>)
    ensures
        r@ == name@.subrange(0, stem_length(name@)) + seq![dot()] + ext@,
{
    proof {
        lemma_stem_bound(name@, name@.len() as int);
    }
    let stem = stem_len_exec(name);
    let mut v: Vec<u8> = Vec::new();
    let mut k: usize = 0;
    while k < stem
        invariant
            stem == stem_length(name@),
            stem <= name@.len(),
            k <= stem,
            v@ == name@.subrange(0, k as int),
        decreases stem - k,
    {
        v.push(name[k]);
        k = k + 1;
        assert(v@ =~= name@.subrange(0, k as int));
    }
    v.push(0x2e);
    let ghost head = v@;
    let mut j: usize = 0;
    while j < ext.len()
        invariant
            j <= ext@.len(),
            v@ == head + ext@.subrange(0, j as int),
        decreases ext@.len() - j,
    {
        v.push(ext[j]);
        j = j + 1;
        assert(v@ =~= head + ext@.subrange(0, j as int));
    }
    assert(ext@.subrange(0, ext@.len() as int) =~= ext@);
    assert(v@ =~= name@.subrange(0, stem_length(name@)) + seq![dot()] + ext@);
    v
}

fn copy_component(c: &Component) -> (r: Component)
    ensures
        r@ == c@,
{
    match c {
        Component::RootDir => Component::RootDir,
        Component::CurDir => Component::CurDir,
        Component::ParentDir => Component::ParentDir,
        Component::Normal(b) => Component::Normal(copy_bytes_of(b)),
    }
}

/// The components of `c` after `with_extension(ext)`.
fn with_extension_exec(c: &Vec<Component>, ext: &[u8]) -> (r: Vec<Component>)
    ensures
        component_views(r@) == with_extension_components(component_views(c@), ext@),
{
    let ghost cv = component_views(c@);
    let mut out: Vec<Component> = Vec::new();
    let n = c.len();
    if n == 0 {
        assert(component_views(out@) =~= with_extension_components(cv, ext@));
        return out;
    }
    let mut i: usize = 0;
    while i < n - 1
        invariant
            n == c@.len(),
            n > 0,
            cv == component_views(c@),
            i <= n - 1,
            component_views(out@) == cv.subrange(0, i as int),
        decreases n - 1 - i,
    {
        let ghost before = out@;
        let item = copy_component(&c[i]);
        assert(item@ == cv[i as int]);
        out.push(item);
        assert(component_views(out@) =~= component_views(before).push(item@));
        i = i + 1;
        assert(component_views(out@) =~= cv.subrange(0, i as int));
    }
    let ghost before = out@;
    let last = match &c[n - 1] {
        Component::Normal(b) => {
            assert(cv.last() == PathComponent::Normal(b@));
            Component::Normal(renamed_with_extension(b, ext))
        },
        other => {
            assert(cv.last() == other@);
            copy_component(other)
        },
    };
    out.push(last);
    assert(component_views(out@) =~= component_views(before).push(last@));
    assert(component_views(out@) =~= with_extension_components(cv, ext@));
    out
}

proof fn lemma_stem_bound(name: Seq<u8>, end: int)
    requires
        end <= name.len(),
    ensures
        0 <= last_dot(name, end) <= name.len(),
    decreases end,
{
    if end > 1 && name[end - 1] != dot() {
        lemma_stem_bound(name, end - 1);
    }
}


/// Whether the components `rel` hold an excluded one.
fn any_excluded(rel: &Vec<Component>, from: usize) -> (r: bool)
    requires
        from <= rel@.len(),
    ensures
        r == exists|i: int| from <= i < rel@.len() && #[trigger] excluded_component(component_views(rel@)[i]),
{
    let ghost cv = component_views(rel@);
    let mut i: usize = from;
    while i < rel.len()
        invariant
            from <= i <= rel@.len(),
            cv == component_views(rel@),
            forall|k: int| from <= k < i ==> !#[trigger] excluded_component(cv[k]),
        decreases rel@.len() - i,
    {
        if is_excluded(&rel[i]) {
            assert(excluded_component(cv[i as int]));
            return true;
        }
        i = i + 1;
    }
    false
}

fn lossy_with_suffix_equal(path: &NativePath, db: &NativePath, suffix: &str) -> (r: bool)
    ensures
        r == (lossy_text(path@) == lossy_text(db@) + suffix@),
{
    let p = path.to_string_lossy();
    let mut d = db.to_string_lossy();
    push_str(&mut d, suffix);
    str_equal(p.as_str(), d.as_str())
}

impl WorkspaceScope {
    /// Whether `path` is relevant for workspace observations: it lies under the workspace
    /// root and is neither in `.provenance`, `.git` or `target` nor the recorder's database
    /// or one of its companion files.
    pub fn is_in_scope(&self, path: &NativePath) -> (r: bool)
        ensures
            r == in_scope(self@, path@),
    {
        let pc = path_components(path.units());
        let rc = path_components(self.workspace_root.units());
        let ghost pv = component_views(pc@);
        let ghost rv = component_views(rc@);
        if rc.len() > pc.len() || !components_match_at(&pc, 0, &rc) {
            assert(relative_components(path@.units, self@.workspace_root.units) is None);
            return false;
        }
        let ghost rel = pv.subrange(rv.len() as int, pv.len() as int);
        assert(relative_components(path@.units, self@.workspace_root.units) == Some(rel));
        if any_excluded(&pc, rc.len()) {
            proof {
                let i = choose|i: int| rc@.len() <= i < pc@.len() && #[trigger] excluded_component(pv[i]);
                assert(rv.len() == rc@.len() && pv.len() == pc@.len());
                let k = i - rv.len();
                assert(rel[k] == pv[i]);
                assert(excluded_component(rel[k]));
                assert(0 <= k < rel.len());
                assert(has_excluded(rel));
            }
            assert(!in_scope(self@, path@));
            return false;
        }
        assert(!has_excluded(rel)) by {
            assert forall|i: int| 0 <= i < rel.len() implies !#[trigger] excluded_component(rel[i]) by {
                assert(rel[i] == pv[rv.len() + i]);
            }
        }
        match &self.db_path {
            None => true,
            Some(db) => {
                let dc = path_components(db.units());
                if components_equal(&pc, &dc) {
                    return false;
                }
                if lossy_with_suffix_equal(path, db, "-wal") || lossy_with_suffix_equal(path, db, "-shm") {
                    return false;
                }
                let wal: [u8; 6] = [0x64, 0x62, 0x2d, 0x77, 0x61, 0x6c];
                let shm: [u8; 6] = [0x64, 0x62, 0x2d, 0x73, 0x68, 0x6d];
                assert(wal@ =~= wal_extension());
                assert(shm@ =~= shm_extension());
                let dw = with_extension_exec(&dc, wal.as_slice());
                let ds = with_extension_exec(&dc, shm.as_slice());
                !(components_equal(&pc, &dw) || components_equal(&pc, &ds))
            },
        }
    }
}


/// The recorder's own database is never part of the workspace, whatever the root.
pub proof fn lemma_database_is_out_of_scope(scope: WorkspaceScopeView, db: NativeStringView)
    requires
        scope.db_path == Some(db),
    ensures
        !in_scope(scope, db),
{
}

} // verus!
