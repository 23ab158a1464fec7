use ourobo::cli::{error_line, render_response, to_ipc_command, CliCommand};
use ourobo::config::{TargetConfig, WatchConfig};
use ourobo::ipc::{DaemonStatus, IpcCommand, ResponseData, WatchStatus};

#[test]
fn add_sends_enabled_local_watch() {
    let cmd = CliCommand::Add {
        id: "docs".to_string(),
        label: "Documents".to_string(),
        source: "/home/user/docs".to_string(),
        target: "/backup/docs".to_string(),
    };
    assert_eq!(
        to_ipc_command(cmd),
        IpcCommand::AddWatch(WatchConfig {
            id: "docs".to_string(),
            label: "Documents".to_string(),
            source: "/home/user/docs".to_string(),
            target: TargetConfig::Local { path: "/backup/docs".to_string() },
            exclude: vec![],
            enabled: true,
        })
    );
}

#[test]
fn subcommands_map_to_requests() {
    assert_eq!(to_ipc_command(CliCommand::Ping), IpcCommand::Ping);
    assert_eq!(to_ipc_command(CliCommand::Status), IpcCommand::Status);
    assert_eq!(to_ipc_command(CliCommand::List), IpcCommand::ListWatches);
    assert_eq!(to_ipc_command(CliCommand::Remove { id: "my-watch".to_string() }), IpcCommand::RemoveWatch { id: "my-watch".to_string() });
    assert_eq!(
        to_ipc_command(CliCommand::Enable { id: "w1".to_string() }),
        IpcCommand::SetWatchEnabled { id: "w1".to_string(), enabled: true }
    );
    assert_eq!(
        to_ipc_command(CliCommand::Disable { id: "w1".to_string() }),
        IpcCommand::SetWatchEnabled { id: "w1".to_string(), enabled: false }
    );
    assert_eq!(to_ipc_command(CliCommand::Backup { id: "w1".to_string() }), IpcCommand::TriggerBackup { id: "w1".to_string() });
    assert_eq!(to_ipc_command(CliCommand::Reload), IpcCommand::ReloadConfig);
    assert_eq!(to_ipc_command(CliCommand::Shutdown), IpcCommand::Shutdown);
}

#[test]
fn status_is_printed() {
    let s = DaemonStatus { uptime_secs: 3600, active_watches: 2, total_files_backed_up: 150, last_error: None };
    assert_eq!(render_response(&ResponseData::DaemonStatus(s)), vec!["Uptime:  3600s", "Watches: 2", "Backed:  150 files"]);
    let s = DaemonStatus { uptime_secs: 0, active_watches: 0, total_files_backed_up: 0, last_error: Some("boom".to_string()) };
    assert_eq!(
        render_response(&ResponseData::DaemonStatus(s)),
        vec!["Uptime:  0s", "Watches: 0", "Backed:  0 files", "Error:   boom"]
    );
}

#[test]
fn watch_list_is_printed() {
    assert_eq!(render_response(&ResponseData::WatchList(vec![])), vec!["No watches configured."]);
    let w = |id: &str, watching: bool, n: u64| WatchStatus {
        config: WatchConfig {
            id: id.to_string(),
            label: format!("Watch {id}"),
            source: format!("/src/{id}"),
            target: TargetConfig::Local { path: "/dest".to_string() },
            exclude: vec![],
            enabled: true,
        },
        files_backed_up: n,
        last_backup: None,
        last_error: None,
        is_watching: watching,
    };
    assert_eq!(
        render_response(&ResponseData::WatchList(vec![w("w1", true, 42), w("w2", false, 18446744073709551615)])),
        vec![
            "[w1] Watch w1 \u{2014} /src/w1 (active, 42 files)",
            "[w2] Watch w2 \u{2014} /src/w2 (paused, 18446744073709551615 files)"
        ]
    );
}

#[test]
fn other_answers_are_printed() {
    assert_eq!(render_response(&ResponseData::Pong), vec!["Pong"]);
    assert_eq!(render_response(&ResponseData::WatchAdded { id: "a".to_string() }), vec!["Watch added: a"]);
    assert_eq!(render_response(&ResponseData::WatchRemoved { id: "a".to_string() }), vec!["Watch removed: a"]);
    assert_eq!(render_response(&ResponseData::WatchUpdated { id: "a".to_string() }), vec!["Watch updated: a"]);
    assert_eq!(render_response(&ResponseData::BackupTriggered { id: "a".to_string() }), vec!["Backup triggered: a"]);
    assert_eq!(render_response(&ResponseData::ConfigReloaded), vec!["Config reloaded."]);
    assert_eq!(render_response(&ResponseData::ShuttingDown), vec!["Daemon shutting down."]);
    assert!(render_response(&ResponseData::Empty).is_empty());
    assert_eq!(error_line("watch not found: x"), "Error: watch not found: x");
}
