use ourobo::ipc::connect_failure;
use ourobo::error::OuroboError;
use ourobo::gui::OuroboApp;
use ourobo::ipc::{DaemonStatus, IpcResponse, ResponseData};
use ourobo::tray::{menu_text, runtime_error_update, update_from_connect_error, update_from_reply, TrayUpdate};

#[test]
fn tray_shows_counts() {
    let s = DaemonStatus { uptime_secs: 5, active_watches: 3, total_files_backed_up: 120, last_error: None };
    let u = update_from_reply(&Ok(IpcResponse::Success(ResponseData::DaemonStatus(s))));
    assert_eq!(u, TrayUpdate::Status("3 watches | 120 files".to_string()));
    assert_eq!(menu_text(&u), "3 watches | 120 files");
}

#[test]
fn tray_other_replies() {
    assert_eq!(update_from_reply(&Ok(IpcResponse::Success(ResponseData::Pong))), TrayUpdate::Status("Connected".to_string()));
    assert_eq!(
        update_from_reply(&Ok(IpcResponse::Error { message: "busy".to_string() })),
        TrayUpdate::Error("busy".to_string())
    );
    assert_eq!(
        update_from_reply(&Err(OuroboError::Ipc("read: broken pipe".to_string()))),
        TrayUpdate::Error("IPC error: read: broken pipe".to_string())
    );
}

#[test]
fn tray_connect_errors() {
    let refused = OuroboError::Ipc("connect to /tmp/o.sock: Connection refused (os error 111)".to_string());
    assert_eq!(update_from_connect_error(&refused), TrayUpdate::Error("No daemon".to_string()));
    let missing = OuroboError::Ipc("connect to /tmp/o.sock: No such file or directory (os error 2)".to_string());
    assert_eq!(update_from_connect_error(&missing), TrayUpdate::Error("No daemon".to_string()));
    let other = OuroboError::Ipc("connect to /tmp/o.sock: Permission denied (os error 13)".to_string());
    let u = update_from_connect_error(&other);
    assert_eq!(u, TrayUpdate::Error("Daemon error: IPC error: connect to /tmp/o.sock: Permission denied (os error 13)".to_string()));
    assert_eq!(menu_text(&TrayUpdate::Error("No daemon".to_string())), "\u{26a0} No daemon");
    assert_eq!(runtime_error_update("no reactor"), TrayUpdate::Error("Runtime error: no reactor".to_string()));
}

#[test]
fn gui_starts_disconnected() {
    let app = OuroboApp::new();
    assert!(!app.is_connected());
    assert_eq!(app.status_text(), "Not connected to daemon");
    assert_eq!(app.connection_label(), "Disconnected");
}

#[test]
fn tray_reports_missing_daemon_for_refused_connection() {
    let e = connect_failure("/run/user/1000/ourobo.sock", "Connection refused (os error 111)");
    assert_eq!(update_from_connect_error(&e), TrayUpdate::Error("No daemon".to_string()));
}

#[test]
fn gui_status_poll_connects_and_shows_counts() {
    let mut app = OuroboApp::new();
    let s = DaemonStatus { uptime_secs: 3600, active_watches: 2, total_files_backed_up: 150, last_error: None };
    app.apply_reply(&Ok(IpcResponse::Success(ResponseData::DaemonStatus(s))));
    assert!(app.is_connected());
    assert_eq!(app.connection_label(), "Connected");
    assert_eq!(app.status_text(), "Uptime: 3600s | 2 watches | 150 files backed up");

    app.apply_reply(&Ok(IpcResponse::Success(ResponseData::Pong)));
    assert!(app.is_connected());
    assert_eq!(app.status_text(), "Uptime: 3600s | 2 watches | 150 files backed up");

    app.apply_reply(&Ok(IpcResponse::Error { message: "busy".to_string() }));
    assert_eq!(app.status_text(), "busy");

    app.apply_reply(&Err(OuroboError::Ipc("connect to /tmp/o.sock: refused".to_string())));
    assert!(!app.is_connected());
    assert_eq!(app.status_text(), "Not connected to daemon");
    assert_eq!(ourobo::gui::REFRESH_SECS, 2);
}

use ourobo::config::{TargetConfig, WatchConfig};
use ourobo::gui::{add_command, backup_command, AddForm, Toast, TOAST_MS};
use ourobo::ipc::{IpcCommand, WatchStatus};

fn status_of(id: &str, watching: bool) -> WatchStatus {
    WatchStatus {
        config: WatchConfig {
            id: id.to_string(),
            label: format!("Watch {id}"),
            source: format!("/src/{id}"),
            target: TargetConfig::Local { path: format!("/dst/{id}") },
            exclude: vec![],
            enabled: true,
        },
        files_backed_up: 3,
        last_backup: None,
        last_error: None,
        is_watching: watching,
    }
}

#[test]
fn gui_watch_list_follows_polls() {
    let mut app = OuroboApp::new();
    app.set_socket_path("/tmp/o.sock".to_string());
    assert_eq!(app.socket_path(), "/tmp/o.sock");
    let list = vec![status_of("a", true), status_of("b", false)];
    app.apply_list(Ok(IpcResponse::Success(ResponseData::WatchList(list.clone()))));
    assert!(app.is_connected());
    assert_eq!(app.watches(), &list);
    app.apply_list(Ok(IpcResponse::Success(ResponseData::Pong)));
    assert_eq!(app.watches(), &list);
    app.apply_list(Err(OuroboError::Ipc("connect to /tmp/o.sock: refused".to_string())));
    assert!(!app.is_connected());
    assert!(app.watches().is_empty());
    app.apply_list(Ok(IpcResponse::Success(ResponseData::WatchList(list.clone()))));
    app.set_socket_path("/tmp/other.sock".to_string());
    assert!(!app.is_connected());
    assert!(app.watches().is_empty());
}

#[test]
fn gui_removal_needs_confirmation() {
    let mut app = OuroboApp::new();
    assert_eq!(app.confirm_remove(), None);
    app.ask_remove("a".to_string());
    assert_eq!(app.pending_removal(), &Some("a".to_string()));
    app.cancel_remove();
    assert_eq!(app.pending_removal(), &None);
    app.ask_remove("b".to_string());
    assert_eq!(app.confirm_remove(), Some(IpcCommand::RemoveWatch { id: "b".to_string() }));
    assert_eq!(app.pending_removal(), &None);
    assert_eq!(backup_command(&"a".to_string()), IpcCommand::TriggerBackup { id: "a".to_string() });
}

#[test]
fn gui_add_dialog_builds_request() {
    let form = AddForm {
        id: "docs".to_string(),
        label: "Documents".to_string(),
        source: "/home/u/Documents".to_string(),
        target: "/mnt/b".to_string(),
    };
    assert_eq!(
        add_command(&form),
        Ok(IpcCommand::AddWatch(WatchConfig {
            id: "docs".to_string(),
            label: "Documents".to_string(),
            source: "/home/u/Documents".to_string(),
            target: TargetConfig::Local { path: "/mnt/b".to_string() },
            exclude: vec![],
            enabled: true,
        }))
    );
    let missing = AddForm { target: String::new(), ..form };
    assert_eq!(add_command(&missing), Err("ID, source and target are required".to_string()));
}

#[test]
fn gui_notifications_come_and_go() {
    let mut app = OuroboApp::new();
    app.note_action_reply(&Ok(IpcResponse::Success(ResponseData::BackupTriggered { id: "a".to_string() })), 1000);
    app.note_action_reply(&Ok(IpcResponse::Error { message: "watch not found: z".to_string() }), 3000);
    app.note_action_reply(&Err(OuroboError::Ipc("read: reset".to_string())), 3000);
    assert_eq!(
        app.toasts(),
        &vec![
            Toast { text: "Backup triggered: a".to_string(), is_error: false, expires_at_ms: 1000 + TOAST_MS },
            Toast { text: "Error: watch not found: z".to_string(), is_error: true, expires_at_ms: 3000 + TOAST_MS },
            Toast { text: "IPC error: read: reset".to_string(), is_error: true, expires_at_ms: 3000 + TOAST_MS },
        ]
    );
    app.expire_toasts(5000);
    assert_eq!(app.toasts().len(), 2);
    assert_eq!(app.toasts()[0].text, "Error: watch not found: z");
    app.expire_toasts(7000);
    assert!(app.toasts().is_empty());
    app.notify("late".to_string(), false, u64::MAX - 1);
    assert_eq!(app.toasts()[0].expires_at_ms, u64::MAX);
}
