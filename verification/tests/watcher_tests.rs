use ourobo::error::OuroboError;
use ourobo::strategy::FileEvent;
use ourobo::watcher::{classify_notice, watch_error, NoticeKind};

#[test]
fn test_watcher_detects_file_creation() {
    // A new file shows up as a plain notice about a path that exists and is a file.
    let event = classify_notice(NoticeKind::Any, "/base/test.txt".to_string(), true, true).unwrap();
    assert_eq!(event.path(), "/base/test.txt");
}

#[test]
fn test_watcher_detects_file_modification() {
    let event = classify_notice(NoticeKind::Any, "/base/existing.txt".to_string(), true, true);
    match event {
        Some(FileEvent::Modified(p)) => assert_eq!(p, "/base/existing.txt"),
        other => panic!("expected Modified, got {:?}", other),
    }
}

#[test]
fn test_watcher_detects_file_deletion() {
    let event = classify_notice(NoticeKind::Any, "/base/to_delete.txt".to_string(), false, false);
    match event {
        Some(FileEvent::Deleted(p)) => assert_eq!(p, "/base/to_delete.txt"),
        other => panic!("expected Deleted, got {:?}", other),
    }
}

#[test]
fn directories_and_continuing_notices_are_skipped() {
    assert_eq!(classify_notice(NoticeKind::Any, "/base/dir".to_string(), true, false), None);
    assert_eq!(classify_notice(NoticeKind::AnyContinuous, "/base/f".to_string(), true, true), None);
    assert_eq!(classify_notice(NoticeKind::Other, "/base/f".to_string(), false, false), None);
}

#[test]
fn watch_error_text() {
    let e = watch_error("/base".to_string(), "No such file or directory".to_string());
    assert_eq!(e, OuroboError::Watch { path: "/base".to_string(), message: "No such file or directory".to_string() });
    assert_eq!(e.message(), "watch error on /base: No such file or directory");
}
