use ourobo::error::OuroboError;
use ourobo::strategy::{BackendOp, BackupAction, BackupResult, BackupStrategy, CopyOnChange, FileEvent};

fn run(strategy: &CopyOnChange, event: &FileEvent, root: &str) -> Result<(BackendOp, BackupResult), OuroboError> {
    let op = strategy.plan_event(event, root, &vec![])?;
    let result = strategy.finish_event(op.clone(), Ok(()))?;
    Ok((op, result))
}

#[test]
fn test_modified_file_is_copied() {
    let strategy = CopyOnChange;
    let event = FileEvent::Modified("/watch/root/sub/file.txt".to_string());
    let (op, result) = run(&strategy, &event, "/watch/root").unwrap();
    assert_eq!(
        op,
        BackendOp::Copy { source: "/watch/root/sub/file.txt".to_string(), dest_relative: "sub/file.txt".to_string() }
    );
    assert_eq!(result.action, BackupAction::Copied);
    assert_eq!(result.dest_relative, "sub/file.txt");
}

#[test]
fn test_created_file_is_copied() {
    let strategy = CopyOnChange;
    let event = FileEvent::Created("/watch/root/new.txt".to_string());
    let (op, result) = run(&strategy, &event, "/watch/root").unwrap();
    assert!(matches!(op, BackendOp::Copy { .. }));
    assert_eq!(result.action, BackupAction::Copied);
    assert_eq!(result.dest_relative, "new.txt");
}

#[test]
fn test_deleted_file_is_deleted() {
    let strategy = CopyOnChange;
    let event = FileEvent::Deleted("/watch/root/gone.txt".to_string());
    let (op, result) = run(&strategy, &event, "/watch/root").unwrap();
    assert_eq!(
        op,
        BackendOp::Delete { source: "/watch/root/gone.txt".to_string(), dest_relative: "gone.txt".to_string() }
    );
    assert_eq!(result.action, BackupAction::Deleted);
}

#[test]
fn test_relative_path_computed_correctly() {
    let strategy = CopyOnChange;
    let event = FileEvent::Modified("/root/a/b/c/deep.txt".to_string());
    let (_, result) = run(&strategy, &event, "/root").unwrap();
    assert_eq!(result.dest_relative, "a/b/c/deep.txt");
}

#[test]
fn test_path_outside_root_returns_error() {
    let strategy = CopyOnChange;
    let event = FileEvent::Modified("/other/path/file.txt".to_string());
    let result = strategy.plan_event(&event, "/watch/root", &vec![]);
    assert!(result.is_err());
    assert_eq!(
        result,
        Err(OuroboError::Backend("/other/path/file.txt is not under watch root /watch/root".to_string()))
    );
}

#[test]
fn sibling_with_common_text_prefix_is_outside() {
    let strategy = CopyOnChange;
    let event = FileEvent::Modified("/watch/rooted/file.txt".to_string());
    assert!(strategy.plan_event(&event, "/watch/root", &vec![]).is_err());
}

#[test]
fn backend_failure_is_passed_on() {
    let strategy = CopyOnChange;
    let op = BackendOp::Copy { source: "/w/a".to_string(), dest_relative: "a".to_string() };
    let err = OuroboError::Io("No space left on device".to_string());
    assert_eq!(strategy.finish_event(op, Err(err.clone())), Err(err));
}

#[test]
fn event_path_and_strategy_name() {
    assert_eq!(FileEvent::Deleted("/x/y".to_string()).path(), "/x/y");
    assert_eq!(FileEvent::Created("/x/z".to_string()).path(), "/x/z");
    assert_eq!(CopyOnChange.name(), "copy-on-change");
}

fn patterns() -> Vec<String> {
    vec!["*.tmp".to_string(), ".DS_Store".to_string(), "target/**".to_string()]
}

#[test]
fn excluded_files_are_skipped() {
    let strategy = CopyOnChange;
    let event = FileEvent::Modified("/w/notes/draft.tmp".to_string());
    let op = strategy.plan_event(&event, "/w", &patterns()).unwrap();
    assert_eq!(
        op,
        BackendOp::Skip {
            source: "/w/notes/draft.tmp".to_string(),
            dest_relative: "notes/draft.tmp".to_string(),
            reason: "excluded by pattern *.tmp".to_string(),
        }
    );
    let result = strategy.finish_event(op, Ok(())).unwrap();
    assert_eq!(result.action, BackupAction::Skipped { reason: "excluded by pattern *.tmp".to_string() });

    let ds = strategy.plan_event(&FileEvent::Deleted("/w/a/.DS_Store".to_string()), "/w", &patterns()).unwrap();
    assert!(matches!(ds, BackendOp::Skip { .. }));
    let build = strategy.plan_event(&FileEvent::Created("/w/target/debug/app".to_string()), "/w", &patterns()).unwrap();
    assert!(matches!(build, BackendOp::Skip { .. }));
}

#[test]
fn other_files_are_not_excluded() {
    let strategy = CopyOnChange;
    let kept = strategy.plan_event(&FileEvent::Modified("/w/src/target/x.rs".to_string()), "/w", &patterns()).unwrap();
    assert_eq!(kept, BackendOp::Copy { source: "/w/src/target/x.rs".to_string(), dest_relative: "src/target/x.rs".to_string() });
    let kept = strategy.plan_event(&FileEvent::Modified("/w/tmp.txt".to_string()), "/w", &patterns()).unwrap();
    assert!(matches!(kept, BackendOp::Copy { .. }));
}
