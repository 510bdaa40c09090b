use provenance::native::NativePath;
use provenance::scope::WorkspaceScope;

fn p(s: &str) -> NativePath {
    NativePath::from_unix_bytes(s.as_bytes().to_vec())
}

#[test]
fn paths_under_the_root_are_in_scope() {
    let scope = WorkspaceScope::new(p("/work"), None);
    assert!(scope.is_in_scope(&p("/work/hello.txt")));
    assert!(scope.is_in_scope(&p("/work//src/./lib.rs")));
    assert!(!scope.is_in_scope(&p("/elsewhere/hello.txt")));
    assert!(!scope.is_in_scope(&p("/workshop/hello.txt")));
}

#[test]
fn recorder_storage_git_and_target_are_excluded() {
    let scope = WorkspaceScope::new(p("/work"), Some(p("/work/records/session.sqlite")));
    assert!(!scope.is_in_scope(&p("/work/.git/HEAD")));
    assert!(!scope.is_in_scope(&p("/work/target/debug/app")));
    assert!(!scope.is_in_scope(&p("/work/.provenance/provenance.db")));
    assert!(!scope.is_in_scope(&p("/work/records/session.sqlite")));
    assert!(!scope.is_in_scope(&p("/work/records/session.sqlite-wal")));
    assert!(!scope.is_in_scope(&p("/work/records/session.sqlite-shm")));
    assert!(!scope.is_in_scope(&p("/work/records/session.db-wal")));
    assert!(!scope.is_in_scope(&p("/work/records/session.db-shm")));
    assert!(scope.is_in_scope(&p("/work/records/other.sqlite")));
    assert!(scope.is_in_scope(&p("/work/targets/x")));
}
