//! The command-line client: the request each subcommand sends, and the lines
//! it prints for each answer.
use crate::config::{TargetConfig, WatchConfig};
use crate::ipc::{DaemonStatus, IpcCommand, ResponseData, WatchStatus};
use crate::paths::views;
use crate::text::{cat, decimal, fmt_u64};
use vstd::prelude::*;
use vstd::string::*;

verus! {

/// A subcommand of the client, with its arguments.
#[derive(Debug, Clone, PartialEq)]
pub enum CliCommand {
    Ping,
    Status,
    Add { id: String, label: String, source: String, target: String },
    Remove { id: String },
    List,
    Enable { id: String },
    Disable { id: String },
    Backup { id: String },
    Reload,
    Shutdown,
}

/// Whether `r` is the request the subcommand `c` sends. Adding a watch sends
/// an enabled watch with a local target and no exclusions.
pub open spec fn sends(c: CliCommand, r: IpcCommand) -> bool {
    match c {
        CliCommand::Ping => r == IpcCommand::Ping,
        CliCommand::Status => r == IpcCommand::Status,
        CliCommand::Add { id, label, source, target } => r matches IpcCommand::AddWatch(w) && w.id == id
            && w.label == label && w.source == source && w.target == (TargetConfig::Local { path: target })
            && w.exclude@.len() == 0 && w.enabled,
        CliCommand::Remove { id } => r == (IpcCommand::RemoveWatch { id }),
        CliCommand::List => r == IpcCommand::ListWatches,
        CliCommand::Enable { id } => r == (IpcCommand::SetWatchEnabled { id, enabled: true }),
        CliCommand::Disable { id } => r == (IpcCommand::SetWatchEnabled { id, enabled: false }),
        CliCommand::Backup { id } => r == (IpcCommand::TriggerBackup { id }),
        CliCommand::Reload => r == IpcCommand::ReloadConfig,
        CliCommand::Shutdown => r == IpcCommand::Shutdown,
    }
}

/// The request the subcommand `c` sends.
pub fn to_ipc_command(c: CliCommand) -> (r: IpcCommand)
    ensures
        sends(c, r),
{
    match c {
        CliCommand::Ping => IpcCommand::Ping,
        CliCommand::Status => IpcCommand::Status,
        CliCommand::Add { id, label, source, target } => IpcCommand::AddWatch(
            WatchConfig {
                id,
                label,
                source,
                target: TargetConfig::Local { path: target },
                exclude: Vec::new(),
                enabled: true,
            },
        ),
        CliCommand::Remove { id } => IpcCommand::RemoveWatch { id },
        CliCommand::List => IpcCommand::ListWatches,
        CliCommand::Enable { id } => IpcCommand::SetWatchEnabled { id, enabled: true },
        CliCommand::Disable { id } => IpcCommand::SetWatchEnabled { id, enabled: false },
        CliCommand::Backup { id } => IpcCommand::TriggerBackup { id },
        CliCommand::Reload => IpcCommand::ReloadConfig,
        CliCommand::Shutdown => IpcCommand::Shutdown,
    }
}

/// The lines printed for a status answer.
pub open spec fn status_lines(s: DaemonStatus) -> Seq<Seq<char>> {
    let base = seq![
        "Uptime:  "@ + decimal(s.uptime_secs as nat) + "s"@,
        "Watches: "@ + decimal(s.active_watches as nat),
        "Backed:  "@ + decimal(s.total_files_backed_up as nat) + " files"@,
    ];
    match s.last_error {
        Some(e) => base.push("Error:   "@ + e@),
        None => base,
    }
}

/// The line printed for one listed watch.
pub open spec fn watch_line(w: WatchStatus) -> Seq<char> {
    "["@ + w.config.id@ + "] "@ + w.config.label@ + " \u{2014} "@ + w.config.source@ + " ("@ + (if w.is_watching {
        "active"@
    } else {
        "paused"@
    }) + ", "@ + decimal(w.files_backed_up as nat) + " files)"@
}

/// The lines printed for a successful answer.
pub open spec fn response_lines(d: ResponseData) -> Seq<Seq<char>> {
    match d {
        ResponseData::Pong => seq!["Pong"@],
        ResponseData::DaemonStatus(s) => status_lines(s),
        ResponseData::WatchList(ws) => if ws@.len() == 0 {
            seq!["No watches configured."@]
        } else {
            Seq::new(ws@.len(), |i: int| watch_line(ws@[i]))
        },
        ResponseData::WatchAdded { id } => seq!["Watch added: "@ + id@],
        ResponseData::WatchRemoved { id } => seq!["Watch removed: "@ + id@],
        ResponseData::WatchUpdated { id } => seq!["Watch updated: "@ + id@],
        ResponseData::BackupTriggered { id } => seq!["Backup triggered: "@ + id@],
        ResponseData::ConfigReloaded => seq!["Config reloaded."@],
        ResponseData::ShuttingDown => seq!["Daemon shutting down."@],
        ResponseData::Empty => Seq::<Seq<char>>::empty(),
    }
}

fn one_line(s: String) -> (v: Vec<String>)
    ensures
        views(v@) == seq![s@],
{
    let mut v: Vec<String> = Vec::new();
    v.push(s);
    assert(views(v@) =~= seq![s@]);
    v
}

fn status_text(s: &DaemonStatus) -> (v: Vec<String>)
    ensures
        views(v@) == status_lines(*s),
{
    let mut v: Vec<String> = Vec::new();
    let mut a = cat("Uptime:  ", fmt_u64(s.uptime_secs).as_str());
    a.append("s");
    v.push(a);
    v.push(cat("Watches: ", fmt_u64(s.active_watches as u64).as_str()));
    let mut c = cat("Backed:  ", fmt_u64(s.total_files_backed_up).as_str());
    c.append(" files");
    v.push(c);
    match &s.last_error {
        Some(e) => {
            v.push(cat("Error:   ", e.as_str()));
        },
        None => {},
    }
    assert(views(v@) =~= status_lines(*s));
    v
}

fn watch_text(w: &WatchStatus) -> (line: String)
    ensures
        line@ == watch_line(*w),
{
    let mut s = cat("[", w.config.id.as_str());
    s.append("] ");
    s.append(w.config.label.as_str());
    s.append(" \u{2014} ");
    s.append(w.config.source.as_str());
    s.append(" (");
    if w.is_watching {
        s.append("active");
    } else {
        s.append("paused");
    }
    s.append(", ");
    s.append(fmt_u64(w.files_backed_up).as_str());
    s.append(" files)");
    s
}

/// The lines the client prints for the successful answer `d`.
pub fn render_response(d: &ResponseData) -> (v: Vec<String>)
    ensures
        views(v@) == response_lines(*d),
{
    match d {
        ResponseData::Pong => one_line(String::from_str("Pong")),
        ResponseData::DaemonStatus(s) => status_text(s),
        ResponseData::WatchList(ws) => {
            if ws.len() == 0 {
                return one_line(String::from_str("No watches configured."));
            }
            let mut v: Vec<String> = Vec::new();
            let mut i: usize = 0;
            while i < ws.len()
                invariant
                    i <= ws@.len(),
                    views(v@) == Seq::new(i as nat, |j: int| watch_line(ws@[j])),
                decreases ws.len() - i,
            {
                let ghost old_v = v@;
                let line = watch_text(&ws[i]);
                v.push(line);
                assert(views(v@) =~= views(old_v).push(line@));
                assert(views(v@) =~= Seq::new((i + 1) as nat, |j: int| watch_line(ws@[j])));
                i = i + 1;
            }
            v
        },
        ResponseData::WatchAdded { id } => one_line(cat("Watch added: ", id.as_str())),
        ResponseData::WatchRemoved { id } => one_line(cat("Watch removed: ", id.as_str())),
        ResponseData::WatchUpdated { id } => one_line(cat("Watch updated: ", id.as_str())),
        ResponseData::BackupTriggered { id } => one_line(cat("Backup triggered: ", id.as_str())),
        ResponseData::ConfigReloaded => one_line(String::from_str("Config reloaded.")),
        ResponseData::ShuttingDown => one_line(String::from_str("Daemon shutting down.")),
        ResponseData::Empty => {
            let v: Vec<String> = Vec::new();
            assert(views(v@) =~= Seq::<Seq<char>>::empty());
            v
        },
    }
}

/// The line the client prints for a refused request.
pub fn error_line(message: &str) -> (line: String)
    ensures
        line@ == "Error: "@ + message@,
{
    cat("Error: ", message)
}

} // verus!
