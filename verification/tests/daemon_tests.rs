use ourobo::config::{TargetConfig, WatchConfig};
use ourobo::daemon::{
    add_watch_response, backup_response, plan_command, reload_plan, reload_response, remove_watch_response,
    set_enabled_response, shutdown_response, startup_action, startup_plan, status_response, watch_list_response,
    CommandPlan, StartupAction,
};
use ourobo::error::OuroboError;
use ourobo::ipc::{DaemonStatus, IpcCommand, IpcResponse, ResponseData, WatchStatus};

fn watch(id: &str, target: TargetConfig, enabled: bool) -> WatchConfig {
    WatchConfig {
        id: id.to_string(),
        label: format!("Watch {id}"),
        source: format!("/src/{id}"),
        target,
        exclude: vec![],
        enabled,
    }
}

fn smb() -> TargetConfig {
    TargetConfig::Smb {
        host: "192.168.1.100".to_string(),
        share: "backups".to_string(),
        path: "/work".to_string(),
        username: "user".to_string(),
    }
}

fn local(p: &str) -> TargetConfig {
    TargetConfig::Local { path: p.to_string() }
}

fn refusal(text: &str) -> CommandPlan {
    CommandPlan::Reply(IpcResponse::Error { message: text.to_string() })
}

#[test]
fn startup_pauses_disabled_and_skips_smb() {
    let watches = vec![watch("a", local("/dest/a"), true), watch("b", local("/dest/b"), false), watch("c", smb(), true)];
    assert_eq!(
        startup_plan(&watches),
        vec![
            StartupAction::Start { target: "/dest/a".to_string() },
            StartupAction::Paused { target: "/dest/b".to_string() },
            StartupAction::Unsupported
        ]
    );
    assert_eq!(startup_action(&watch("d", smb(), false)), StartupAction::Disabled);
}

#[test]
fn requests_are_planned() {
    assert_eq!(plan_command(IpcCommand::Ping), CommandPlan::Reply(IpcResponse::Success(ResponseData::Pong)));
    assert_eq!(plan_command(IpcCommand::Status), CommandPlan::Status);
    assert_eq!(plan_command(IpcCommand::ListWatches), CommandPlan::List);
    let w = watch("a", local("/dest/a"), true);
    assert_eq!(plan_command(IpcCommand::AddWatch(w.clone())), CommandPlan::Add { config: w, target: "/dest/a".to_string() });
    assert_eq!(plan_command(IpcCommand::AddWatch(watch("s", smb(), true))), refusal("SMB backend not yet implemented"));
    assert_eq!(plan_command(IpcCommand::RemoveWatch { id: "a".to_string() }), CommandPlan::Remove { id: "a".to_string() });
    assert_eq!(
        plan_command(IpcCommand::SetWatchEnabled { id: "a".to_string(), enabled: false }),
        CommandPlan::SetEnabled { id: "a".to_string(), enabled: false }
    );
    assert_eq!(
        plan_command(IpcCommand::TriggerBackup { id: "a".to_string() }),
        CommandPlan::Backup { id: "a".to_string() }
    );
    assert_eq!(plan_command(IpcCommand::ReloadConfig), CommandPlan::Reload);
    assert_eq!(plan_command(IpcCommand::Shutdown), CommandPlan::Shutdown);
    assert_eq!(shutdown_response(), IpcResponse::Success(ResponseData::ShuttingDown));
}

#[test]
fn status_sums_counts() {
    let r = status_response(3600, 2, &vec![100, 50]).unwrap();
    assert_eq!(
        r,
        IpcResponse::Success(ResponseData::DaemonStatus(DaemonStatus {
            uptime_secs: 3600,
            active_watches: 2,
            total_files_backed_up: 150,
            last_error: None,
        }))
    );
    assert_eq!(status_response(1, 2, &vec![u64::MAX, 1]), None);
    assert_eq!(
        status_response(0, 0, &vec![]),
        Some(IpcResponse::Success(ResponseData::DaemonStatus(DaemonStatus {
            uptime_secs: 0,
            active_watches: 0,
            total_files_backed_up: 0,
            last_error: None,
        })))
    );
}

#[test]
fn watch_list_keeps_order() {
    let a = watch("a", local("/dest/a"), true);
    let b = watch("b", local("/dest/b"), true);
    let c = watch("c", local("/dest/c"), false);
    let r = watch_list_response(vec![(a.clone(), 42, true), (b.clone(), 7, false), (c.clone(), 0, true)]);
    let expected = vec![
        WatchStatus { config: a, files_backed_up: 42, last_backup: None, last_error: None, is_watching: true },
        WatchStatus { config: b, files_backed_up: 7, last_backup: None, last_error: None, is_watching: false },
        WatchStatus { config: c, files_backed_up: 0, last_backup: None, last_error: None, is_watching: true },
    ];
    assert_eq!(r, IpcResponse::Success(ResponseData::WatchList(expected)));
}

#[test]
fn add_and_remove_answers() {
    assert_eq!(add_watch_response("a".to_string(), &Ok(())), IpcResponse::Success(ResponseData::WatchAdded { id: "a".to_string() }));
    assert_eq!(
        add_watch_response("a".to_string(), &Err(OuroboError::DuplicateWatch("a".to_string()))),
        IpcResponse::Error { message: "duplicate watch ID: a".to_string() }
    );
    assert_eq!(
        remove_watch_response::<u8>("a".to_string(), &Ok(3)),
        IpcResponse::Success(ResponseData::WatchRemoved { id: "a".to_string() })
    );
    assert_eq!(
        remove_watch_response::<u8>("z".to_string(), &Err(OuroboError::WatchNotFound("z".to_string()))),
        IpcResponse::Error { message: "watch not found: z".to_string() }
    );
}

#[test]
fn enable_backup_and_reload_answers() {
    assert_eq!(
        set_enabled_response("a".to_string(), &Ok(())),
        IpcResponse::Success(ResponseData::WatchUpdated { id: "a".to_string() })
    );
    assert_eq!(
        set_enabled_response("z".to_string(), &Err(OuroboError::WatchNotFound("z".to_string()))),
        IpcResponse::Error { message: "watch not found: z".to_string() }
    );
    assert_eq!(
        backup_response("a".to_string(), &Ok(())),
        IpcResponse::Success(ResponseData::BackupTriggered { id: "a".to_string() })
    );
    assert_eq!(
        backup_response("z".to_string(), &Err(OuroboError::WatchNotFound("z".to_string()))),
        IpcResponse::Error { message: "watch not found: z".to_string() }
    );
    assert_eq!(reload_response(&Ok(())), IpcResponse::Success(ResponseData::ConfigReloaded));
    assert_eq!(
        reload_response(&Err(OuroboError::ConfigNotFound("/c.toml".to_string()))),
        IpcResponse::Error { message: "config file not found: /c.toml".to_string() }
    );
}

#[test]
fn reload_stops_all_then_starts_as_at_startup() {
    let watches = vec![watch("n", local("/dest/n"), true), watch("o", local("/dest/o"), false), watch("s", smb(), true)];
    let p = reload_plan(vec!["a".to_string(), "b".to_string()], &watches);
    assert_eq!(p.stop, vec!["a".to_string(), "b".to_string()]);
    assert_eq!(
        p.start,
        vec![
            StartupAction::Start { target: "/dest/n".to_string() },
            StartupAction::Paused { target: "/dest/o".to_string() },
            StartupAction::Unsupported
        ]
    );
}
