use ourobo::backend::{LocalFsBackend, MetaLookup, RemoteFileMeta, Timestamp};
use ourobo::error::OuroboError;

fn setup() -> LocalFsBackend {
    LocalFsBackend::new("/backup/dest".to_string())
}

#[test]
fn destination_of_top_level_file() {
    let backend = setup();
    assert_eq!(backend.full_path("hello.txt"), Ok("/backup/dest/hello.txt".to_string()));
}

#[test]
fn destination_of_nested_file() {
    let backend = setup();
    assert_eq!(backend.full_path("sub/dir/file.txt"), Ok("/backup/dest/sub/dir/file.txt".to_string()));
}

#[test]
fn destination_of_nested_directory() {
    let backend = setup();
    assert_eq!(backend.full_path("a/b/c"), Ok("/backup/dest/a/b/c".to_string()));
}

#[test]
fn test_file_meta_existing() {
    let backend = setup();
    let modified = Some(Timestamp { secs: 1_767_225_600, nanos: 0 });
    let meta = backend.file_meta(MetaLookup::Found { size: 12, modified }).unwrap();
    assert!(meta.exists);
    assert_eq!(meta.size, 12);
    assert!(meta.modified.is_some());
}

#[test]
fn test_file_meta_nonexistent() {
    let backend = setup();
    let meta = backend.file_meta(MetaLookup::NotFound).unwrap();
    assert!(!meta.exists);
    assert_eq!(meta.size, 0);
    assert!(meta.modified.is_none());
    assert_eq!(meta, RemoteFileMeta { size: 0, modified: None, exists: false });
}

#[test]
fn file_meta_failure_is_io_error() {
    let backend = setup();
    let err = backend.file_meta(MetaLookup::Failed("permission denied".to_string())).unwrap_err();
    assert_eq!(err, OuroboError::Io("permission denied".to_string()));
}

#[test]
fn traversal_is_denied() {
    let backend = setup();
    assert_eq!(
        backend.full_path("../etc/passwd"),
        Err(OuroboError::Backend("path traversal denied: ../etc/passwd".to_string()))
    );
    assert_eq!(
        backend.full_path("a/../../b"),
        Err(OuroboError::Backend("path traversal denied: a/../../b".to_string()))
    );
    assert_eq!(
        backend.full_path("/etc/passwd"),
        Err(OuroboError::Backend("path traversal denied: /etc/passwd".to_string()))
    );
    assert_eq!(backend.full_path("a/..b/c"), Ok("/backup/dest/a/..b/c".to_string()));
}

#[test]
fn root_with_trailing_separator() {
    let backend = LocalFsBackend::new("/backup/".to_string());
    assert_eq!(backend.full_path("x.txt"), Ok("/backup/x.txt".to_string()));
    assert_eq!(backend.root(), "/backup/");
    assert_eq!(backend.name(), "local-fs");
}

#[test]
fn destination_of_file_to_delete() {
    let backend = setup();
    assert_eq!(backend.full_path("del.txt"), Ok("/backup/dest/del.txt".to_string()));
}
