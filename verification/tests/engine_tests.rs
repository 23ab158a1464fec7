use ourobo::backend::Timestamp;
use ourobo::config::{TargetConfig, WatchConfig};
use ourobo::engine::{current_time, plan_delivery, timestamp_from, BackupEngine, Delivery, WatchStats};
use ourobo::error::OuroboError;
use ourobo::strategy::{BackendOp, BackupAction, BackupResult, BackupStrategy, CopyOnChange, FileEvent};

fn make_engine() -> BackupEngine<&'static str, u32> {
    BackupEngine::new("copy-on-change")
}

fn make_watch_config(id: &str, source: &str) -> WatchConfig {
    WatchConfig {
        id: id.to_string(),
        label: format!("Test {id}"),
        source: source.to_string(),
        target: TargetConfig::Local { path: "/tmp/unused".to_string() },
        exclude: vec![],
        enabled: true,
    }
}

#[test]
fn test_add_and_list_watch() {
    let mut engine = make_engine();
    let config = make_watch_config("w1", "/tmp/src");
    engine.add_watch(config, 100).unwrap();

    assert_eq!(engine.watch_count(), 1);
    assert!(engine.has_watch("w1"));
    let listed = engine.list_watches();
    assert_eq!(listed.len(), 1);
    assert_eq!(listed[0].0.id, "w1");
    assert_eq!(*listed[0].1, 100);
}

#[test]
fn test_remove_watch() {
    let mut engine = make_engine();
    let config = make_watch_config("w1", "/tmp/src");
    engine.add_watch(config, 100).unwrap();
    assert_eq!(engine.watch_count(), 1);

    assert_eq!(engine.remove_watch("w1"), Ok(100));
    assert_eq!(engine.watch_count(), 0);
    assert!(!engine.has_watch("w1"));
}

#[test]
fn test_remove_nonexistent_watch_errors() {
    let mut engine = make_engine();
    let result = engine.remove_watch("nope");
    assert!(result.is_err());
    assert_eq!(result, Err(OuroboError::WatchNotFound("nope".to_string())));
}

#[test]
fn test_add_duplicate_id_errors() {
    let mut engine = make_engine();
    let config1 = make_watch_config("dup", "/tmp/src");
    engine.add_watch(config1, 1).unwrap();

    let config2 = make_watch_config("dup", "/tmp/other");
    let result = engine.add_watch(config2, 2);
    assert!(result.is_err());
    assert_eq!(result, Err(OuroboError::DuplicateWatch("dup".to_string())));
    assert_eq!(engine.watch_count(), 1);
    assert_eq!(engine.list_watches()[0].0.source, "/tmp/src");
    assert_eq!(engine.check_new_watch(&"dup".to_string()), Err(OuroboError::DuplicateWatch("dup".to_string())));
    assert_eq!(engine.check_new_watch(&"fresh".to_string()), Ok(()));
}

#[test]
fn add_then_remove_restores_registry() {
    let mut engine = make_engine();
    engine.add_watch(make_watch_config("a", "/a"), 1).unwrap();
    engine.add_watch(make_watch_config("b", "/b"), 2).unwrap();
    engine.add_watch(make_watch_config("c", "/c"), 3).unwrap();
    assert_eq!(engine.remove_watch("c"), Ok(3));
    let ids: Vec<String> = engine.list_watches().iter().map(|(c, _, _)| c.id.clone()).collect();
    assert_eq!(ids, vec!["a".to_string(), "b".to_string()]);
    assert_eq!(engine.remove_watch("a"), Ok(1));
    let ids: Vec<String> = engine.list_watches().iter().map(|(c, _, _)| c.id.clone()).collect();
    assert_eq!(ids, vec!["b".to_string()]);
    assert_eq!(*engine.strategy(), "copy-on-change");
}

fn copied() -> Result<BackupResult, OuroboError> {
    Ok(BackupResult { source: "/w/a".to_string(), dest_relative: "a".to_string(), action: BackupAction::Copied })
}

#[test]
fn stats_count_copies_and_deletions() {
    let now = Timestamp { secs: 1_700_000_000, nanos: 5 };
    let mut stats = WatchStats::new();
    assert_eq!(stats.files_backed_up, 0);
    stats.record(&copied(), now);
    let deleted =
        Ok(BackupResult { source: "/w/b".to_string(), dest_relative: "b".to_string(), action: BackupAction::Deleted });
    stats.record(&deleted, now);
    assert_eq!(stats.files_backed_up, 2);
    assert_eq!(stats.last_backup, Some(now));

    let skipped = Ok(BackupResult {
        source: "/w/c".to_string(),
        dest_relative: "c".to_string(),
        action: BackupAction::Skipped { reason: "unchanged".to_string() },
    });
    let later = Timestamp { secs: 1_700_000_100, nanos: 0 };
    stats.record(&skipped, later);
    assert_eq!(stats.files_backed_up, 2);
    assert_eq!(stats.last_backup, Some(now));

    stats.record(&Err(OuroboError::Io("disk full".to_string())), later);
    assert_eq!(stats.files_backed_up, 2);
    assert_eq!(stats.last_error, Some("IO error: disk full".to_string()));
}

#[test]
fn stats_counter_wraps() {
    let mut stats = WatchStats { files_backed_up: u64::MAX, last_backup: None, last_error: None };
    stats.record(&copied(), Timestamp { secs: 0, nanos: 0 });
    assert_eq!(stats.files_backed_up, 0);
}

#[test]
fn settle_counts_a_delivered_copy_at_the_current_time() {
    let mut stats = WatchStats::new();
    let planned = Ok(BackendOp::Copy { source: "/w/a".to_string(), dest_relative: "a".to_string() });
    let r = stats.settle(&CopyOnChange, planned, Ok(()));
    assert_eq!(r, copied());
    assert_eq!(stats.files_backed_up, 1);
    let t = stats.last_backup.expect("a copy sets the time of the last backup");
    assert!(t.secs > 1_600_000_000);
    assert!(t.nanos < 1_000_000_000);
    let c = current_time();
    assert!(c.secs >= t.secs);
}

#[test]
fn settle_at_keeps_failures_and_skips() {
    let now = Timestamp { secs: 42, nanos: 7 };
    let mut stats = WatchStats::new();
    let planned = Ok(BackendOp::Delete { source: "/w/b".to_string(), dest_relative: "b".to_string() });
    let r = stats.settle_at(&CopyOnChange, planned, Err(OuroboError::Io("busy".to_string())), now);
    assert_eq!(r, Err(OuroboError::Io("busy".to_string())));
    assert_eq!(stats.files_backed_up, 0);
    assert_eq!(stats.last_backup, None);
    assert_eq!(stats.last_error, Some("IO error: busy".to_string()));

    let skip = Ok(BackendOp::Skip {
        source: "/w/x.tmp".to_string(),
        dest_relative: "x.tmp".to_string(),
        reason: "excluded by pattern *.tmp".to_string(),
    });
    let before = stats.clone();
    let r = stats.settle_at(&CopyOnChange, skip, Ok(()), now);
    assert_eq!(
        r,
        Ok(BackupResult {
            source: "/w/x.tmp".to_string(),
            dest_relative: "x.tmp".to_string(),
            action: BackupAction::Skipped { reason: "excluded by pattern *.tmp".to_string() },
        })
    );
    assert_eq!(stats, before);

    let r = stats.settle_at(&CopyOnChange, Err(OuroboError::Backend("outside".to_string())), Ok(()), now);
    assert_eq!(r, Err(OuroboError::Backend("outside".to_string())));
    assert_eq!(stats.last_error, Some("backend error: outside".to_string()));

    let planned = Ok(BackendOp::Delete { source: "/w/b".to_string(), dest_relative: "b".to_string() });
    let r = stats.settle_at(&CopyOnChange, planned, Ok(()), now);
    assert_eq!(r.unwrap().action, BackupAction::Deleted);
    assert_eq!(stats.files_backed_up, 1);
    assert_eq!(stats.last_backup, Some(now));
}

#[test]
fn timestamps_before_and_after_the_epoch() {
    assert_eq!(timestamp_from(true, 1_700_000_000, 5), Timestamp { secs: 1_700_000_000, nanos: 5 });
    assert_eq!(timestamp_from(false, 2, 0), Timestamp { secs: -2, nanos: 0 });
    assert_eq!(timestamp_from(false, 2, 250_000_000), Timestamp { secs: -3, nanos: 750_000_000 });
    assert_eq!(timestamp_from(true, u64::MAX, 1), Timestamp { secs: i64::MAX, nanos: 999_999_999 });
    assert_eq!(timestamp_from(false, u64::MAX, 1), Timestamp { secs: i64::MIN, nanos: 0 });
}

#[test]
fn paused_watch_ignores_seen_events_but_not_manual_ones() {
    let excl = vec!["*.tmp".to_string()];
    let seen = Delivery { event: FileEvent::Modified("/w/a.txt".to_string()), manual: false };
    assert_eq!(plan_delivery(&CopyOnChange, false, &seen, "/w", &excl), None);
    let expected = Some(Ok(BackendOp::Copy { source: "/w/a.txt".to_string(), dest_relative: "a.txt".to_string() }));
    assert_eq!(plan_delivery(&CopyOnChange, true, &seen, "/w", &excl), expected);
    let manual = Delivery { event: FileEvent::Modified("/w/a.txt".to_string()), manual: true };
    assert_eq!(plan_delivery(&CopyOnChange, false, &manual, "/w", &excl), expected);
    let tmp = Delivery { event: FileEvent::Created("/w/b.tmp".to_string()), manual: false };
    assert_eq!(
        plan_delivery(&CopyOnChange, true, &tmp, "/w", &excl),
        Some(Ok(BackendOp::Skip {
            source: "/w/b.tmp".to_string(),
            dest_relative: "b.tmp".to_string(),
            reason: "excluded by pattern *.tmp".to_string(),
        }))
    );
}

#[test]
fn enable_and_disable_watch() {
    let mut engine = make_engine();
    engine.add_watch(make_watch_config("a", "/a"), 1).unwrap();
    engine.add_watch(make_watch_config("b", "/b"), 2).unwrap();
    assert_eq!(engine.set_enabled("a", false), Ok(()));
    let (c, h) = engine.find_watch("a").unwrap();
    assert!(!c.enabled);
    assert_eq!(*h, 1);
    assert!(engine.find_watch("b").unwrap().0.enabled);
    assert_eq!(engine.set_enabled("a", true), Ok(()));
    assert!(engine.find_watch("a").unwrap().0.enabled);
    assert_eq!(engine.set_enabled("zz", false), Err(OuroboError::WatchNotFound("zz".to_string())));
    assert_eq!(engine.find_watch("zz").map(|_| ()), Err(OuroboError::WatchNotFound("zz".to_string())));
    assert_eq!(engine.ids(), vec!["a".to_string(), "b".to_string()]);
    assert_eq!(engine.watch_count(), 2);
}

#[test]
fn added_watch_is_watching_whatever_its_flag() {
    let mut engine = make_engine();
    let mut config = make_watch_config("off", "/off");
    config.enabled = false;
    engine.add_watch(config, 9).unwrap();
    let listed = engine.list_watches();
    assert!(!listed[0].0.enabled);
    assert!(listed[0].2);
    assert_eq!(engine.watching_count(), 1);
    engine.set_enabled("off", false).unwrap();
    assert!(!engine.list_watches()[0].2);
    assert_eq!(engine.watching_count(), 0);
    assert_eq!(engine.watch_count(), 1);
    engine.set_enabled("off", true).unwrap();
    assert!(engine.list_watches()[0].2);
    assert!(engine.list_watches()[0].0.enabled);
}
