//! The daemon's decisions: which configured watches it starts, how it answers
//! each request, and what its status reports.
use crate::config::{TargetConfig, WatchConfig};
use crate::engine::{after_set_enabled, has_id, index_of_id, unique_ids, WatchEntry};
use crate::error::{error_text, OuroboError};
use crate::ipc::{DaemonStatus, IpcCommand, IpcResponse, ResponseData, WatchStatus};
use vstd::prelude::*;
use vstd::string::*;

verus! {

/// What the daemon does with a configured watch when it starts.
#[derive(Debug, Clone, PartialEq)]
pub enum StartupAction {
    /// The watch is disabled and its target kind has no backend: it is left alone.
    Disabled,
    /// The watch is disabled: it is registered paused, backing up below
    /// `target` once enabled.
    Paused { target: String },
    /// The watch's target kind has no backend: it is left alone with a warning.
    Unsupported,
    /// The watch is started, backing up below `target`.
    Start { target: String },
}

/// Whether `a` is what the daemon does at start-up with the configured watch
/// `w`: a local watch is started, or registered paused when disabled; a
/// watch of another target kind is left alone, with a warning when enabled.
pub open spec fn starts_as(w: WatchConfig, a: StartupAction) -> bool {
    match w.target {
        TargetConfig::Smb { .. } => a == if w.enabled { StartupAction::Unsupported } else { StartupAction::Disabled },
        TargetConfig::Local { path } => a == if w.enabled {
            StartupAction::Start { target: path }
        } else {
            StartupAction::Paused { target: path }
        },
    }
}

/// What the daemon does at start-up with the configured watch `w`.
pub fn startup_action(w: &WatchConfig) -> (a: StartupAction)
    ensures
        starts_as(*w, a),
{
    match &w.target {
        TargetConfig::Local { path } => if w.enabled {
            StartupAction::Start { target: path.clone() }
        } else {
            StartupAction::Paused { target: path.clone() }
        },
        TargetConfig::Smb { .. } => if w.enabled {
            StartupAction::Unsupported
        } else {
            StartupAction::Disabled
        },
    }
}

/// The start-up action for each configured watch, in order.
pub fn startup_plan(watches: &Vec<WatchConfig>) -> (v: Vec<StartupAction>)
    ensures
        v@.len() == watches@.len(),
        forall|i: int| 0 <= i < v@.len() ==> starts_as(#[trigger] watches@[i], v@[i]),
{
    let mut v: Vec<StartupAction> = Vec::new();
    let mut i: usize = 0;
    while i < watches.len()
        invariant
            i <= watches@.len(),
            v@.len() == i,
            forall|j: int| 0 <= j < i ==> starts_as(#[trigger] watches@[j], v@[j]),
        decreases watches.len() - i,
    {
        v.push(startup_action(&watches[i]));
        i = i + 1;
    }
    v
}

/// How the daemon handles one request.
#[derive(Debug, Clone, PartialEq)]
pub enum CommandPlan {
    /// Answer at once.
    Reply(IpcResponse),
    /// Report the daemon's status.
    Status,
    /// List the registered watches.
    List,
    /// Start this watch, backing up below `target`, and register it.
    Add { config: WatchConfig, target: String },
    /// Unregister and stop the watch with this id.
    Remove { id: String },
    /// Resume (`enabled`) or pause the watch with this id.
    SetEnabled { id: String, enabled: bool },
    /// Back up every file under the watch with this id now.
    Backup { id: String },
    /// Read the configuration file again and restart the watches it lists.
    Reload,
    /// Answer that the daemon is shutting down, and shut it down.
    Shutdown,
}

/// The answer to a request the daemon does not carry out.
pub open spec fn refusal(r: IpcResponse, text: Seq<char>) -> bool {
    r matches IpcResponse::Error { message } && message@ == text
}

/// Whether `p` is how the daemon handles `cmd`: a ping is answered with a
/// pong; status, listing, adding, removing, enabling, disabling, manual
/// backups and reloading go to the engine; a watch with a target of
/// unsupported kind is refused with a message; a shutdown request shuts the
/// daemon down.
pub open spec fn plans(cmd: IpcCommand, p: CommandPlan) -> bool {
    match cmd {
        IpcCommand::Ping => p == CommandPlan::Reply(IpcResponse::Success(ResponseData::Pong)),
        IpcCommand::Status => p == CommandPlan::Status,
        IpcCommand::ListWatches => p == CommandPlan::List,
        IpcCommand::AddWatch(c) => match c.target {
            TargetConfig::Local { path } => p == (CommandPlan::Add { config: c, target: path }),
            TargetConfig::Smb { .. } => p matches CommandPlan::Reply(r) && refusal(r, "SMB backend not yet implemented"@),
        },
        IpcCommand::RemoveWatch { id } => p == (CommandPlan::Remove { id }),
        IpcCommand::SetWatchEnabled { id, enabled } => p == (CommandPlan::SetEnabled { id, enabled }),
        IpcCommand::TriggerBackup { id } => p == (CommandPlan::Backup { id }),
        IpcCommand::ReloadConfig => p == CommandPlan::Reload,
        IpcCommand::Shutdown => p == CommandPlan::Shutdown,
    }
}

/// How the daemon handles `cmd`.
pub fn plan_command(cmd: IpcCommand) -> (p: CommandPlan)
    ensures
        plans(cmd, p),
{
    match cmd {
        IpcCommand::Ping => CommandPlan::Reply(IpcResponse::Success(ResponseData::Pong)),
        IpcCommand::Status => CommandPlan::Status,
        IpcCommand::ListWatches => CommandPlan::List,
        IpcCommand::AddWatch(c) => {
            let target = match &c.target {
                TargetConfig::Local { path } => path.clone(),
                TargetConfig::Smb { .. } => {
                    return CommandPlan::Reply(
                        IpcResponse::Error { message: String::from_str("SMB backend not yet implemented") },
                    );
                },
            };
            CommandPlan::Add { config: c, target }
        },
        IpcCommand::RemoveWatch { id } => CommandPlan::Remove { id },
        IpcCommand::SetWatchEnabled { id, enabled } => CommandPlan::SetEnabled { id, enabled },
        IpcCommand::TriggerBackup { id } => CommandPlan::Backup { id },
        IpcCommand::ReloadConfig => CommandPlan::Reload,
        IpcCommand::Shutdown => CommandPlan::Shutdown,
    }
}

/// The answer to a shutdown request.
pub fn shutdown_response() -> (r: IpcResponse)
    ensures
        r == IpcResponse::Success(ResponseData::ShuttingDown),
{
    IpcResponse::Success(ResponseData::ShuttingDown)
}

/// The sum of the counts in `s`.
pub open spec fn total(s: Seq<u64>) -> int
    decreases s.len(),
{
    if s.len() == 0 {
        0
    } else {
        total(s.drop_last()) + s.last()
    }
}

/// The status answer: the uptime, the number of active watches and the files
/// backed up by all of them together, with no error; none when that total
/// does not fit in 64 bits.
pub fn status_response(uptime_secs: u64, active_watches: usize, counts: &Vec<u64>) -> (r: Option<IpcResponse>)
    ensures
        total(counts@) <= u64::MAX ==> r == Some(IpcResponse::Success(ResponseData::DaemonStatus(DaemonStatus {
            uptime_secs,
            active_watches,
            total_files_backed_up: total(counts@) as u64,
            last_error: None,
        }))),
        total(counts@) > u64::MAX ==> r is None,
{
    let mut sum: u64 = 0;
    let mut i: usize = 0;
    while i < counts.len()
        invariant
            i <= counts@.len(),
            sum == total(counts@.take(i as int)),
        decreases counts.len() - i,
    {
        proof {
            assert(counts@.take(i + 1).drop_last() =~= counts@.take(i as int));
        }
        match sum.checked_add(counts[i]) {
            Some(s) => sum = s,
            None => {
                proof {
                    lemma_total_prefix(counts@, i + 1);
                }
                return None;
            },
        }
        i = i + 1;
    }
    assert(counts@.take(counts@.len() as int) =~= counts@);
    Some(IpcResponse::Success(ResponseData::DaemonStatus(DaemonStatus {
        uptime_secs,
        active_watches,
        total_files_backed_up: sum,
        last_error: None,
    })))
}

proof fn lemma_total_prefix(s: Seq<u64>, k: int)
    requires
        0 <= k <= s.len(),
    ensures
        total(s.take(k)) <= total(s),
    decreases s.len(),
{
    if k < s.len() {
        assert(s.drop_last().take(k) =~= s.take(k));
        lemma_total_prefix(s.drop_last(), k);
    } else {
        assert(s.take(k) =~= s);
    }
}

/// How a registered watch is listed: its configuration, file count and
/// whether it is watching, with no time or error.
pub open spec fn listed(config: WatchConfig, files: u64, watching: bool) -> WatchStatus {
    WatchStatus { config, files_backed_up: files, last_backup: None, last_error: None, is_watching: watching }
}

/// Whether `r` lists exactly `entries`, in order.
pub open spec fn lists(r: IpcResponse, entries: Seq<(WatchConfig, u64, bool)>) -> bool {
    &&& r matches IpcResponse::Success(ResponseData::WatchList(v))
    &&& r->Success_0->WatchList_0@.len() == entries.len()
    &&& forall|i: int|
        0 <= i < entries.len() ==> r->Success_0->WatchList_0@[i] == listed(
            #[trigger] entries[i].0,
            entries[i].1,
            entries[i].2,
        )
}

/// The listing answer for the given watches, their file counts and whether
/// each is watching, in order.
pub fn watch_list_response(entries: Vec<(WatchConfig, u64, bool)>) -> (r: IpcResponse)
    ensures
        lists(r, entries@),
{
    let mut v: Vec<WatchStatus> = Vec::new();
    let mut rest = entries;
    let ghost all = rest@;
    let mut rev: Vec<(WatchConfig, u64, bool)> = Vec::new();
    while rest.len() > 0
        invariant
            rev@.len() + rest@.len() == all.len(),
            rest@ == all.take(rest@.len() as int),
            forall|j: int| 0 <= j < rev@.len() ==> rev@[j] == all[all.len() - 1 - j],
        decreases rest.len(),
    {
        let e = rest.pop().unwrap();
        rev.push(e);
    }
    while rev.len() > 0
        invariant
            v@.len() + rev@.len() == all.len(),
            forall|j: int| 0 <= j < rev@.len() ==> rev@[j] == all[all.len() - 1 - j],
            forall|j: int| 0 <= j < v@.len() ==> v@[j] == listed(#[trigger] all[j].0, all[j].1, all[j].2),
        decreases rev.len(),
    {
        let (config, files, is_watching) = rev.pop().unwrap();
        v.push(WatchStatus { config, files_backed_up: files, last_backup: None, last_error: None, is_watching });
    }
    IpcResponse::Success(ResponseData::WatchList(v))
}

/// The answer to adding the watch `id`: `WatchAdded` on success, else the
/// error's text.
pub fn add_watch_response(id: String, outcome: &Result<(), OuroboError>) -> (r: IpcResponse)
    ensures
        outcome is Ok ==> r == IpcResponse::Success(ResponseData::WatchAdded { id }),
        outcome matches Err(e) ==> refusal(r, error_text(*e)),
{
    match outcome {
        Ok(()) => IpcResponse::Success(ResponseData::WatchAdded { id }),
        Err(e) => IpcResponse::Error { message: e.message() },
    }
}

/// The answer to removing the watch `id`: `WatchRemoved` on success, else the
/// error's text.
pub fn remove_watch_response<H>(id: String, outcome: &Result<H, OuroboError>) -> (r: IpcResponse)
    ensures
        outcome is Ok ==> r == IpcResponse::Success(ResponseData::WatchRemoved { id }),
        outcome matches Err(e) ==> refusal(r, error_text(*e)),
{
    match outcome {
        Ok(_) => IpcResponse::Success(ResponseData::WatchRemoved { id }),
        Err(e) => IpcResponse::Error { message: e.message() },
    }
}

/// The answer to enabling or disabling the watch `id`: `WatchUpdated` on
/// success, else the error's text.
pub fn set_enabled_response(id: String, outcome: &Result<(), OuroboError>) -> (r: IpcResponse)
    ensures
        outcome is Ok ==> r == IpcResponse::Success(ResponseData::WatchUpdated { id }),
        outcome matches Err(e) ==> refusal(r, error_text(*e)),
{
    match outcome {
        Ok(()) => IpcResponse::Success(ResponseData::WatchUpdated { id }),
        Err(e) => IpcResponse::Error { message: e.message() },
    }
}

/// The answer to a manual backup of the watch `id`: `BackupTriggered` once
/// its files are queued, else the error's text.
pub fn backup_response(id: String, outcome: &Result<(), OuroboError>) -> (r: IpcResponse)
    ensures
        outcome is Ok ==> r == IpcResponse::Success(ResponseData::BackupTriggered { id }),
        outcome matches Err(e) ==> refusal(r, error_text(*e)),
{
    match outcome {
        Ok(()) => IpcResponse::Success(ResponseData::BackupTriggered { id }),
        Err(e) => IpcResponse::Error { message: e.message() },
    }
}

/// The answer to a reload: `ConfigReloaded` once the new configuration is in
/// force, else the error's text.
pub fn reload_response(outcome: &Result<(), OuroboError>) -> (r: IpcResponse)
    ensures
        outcome is Ok ==> r == IpcResponse::Success(ResponseData::ConfigReloaded),
        outcome matches Err(e) ==> refusal(r, error_text(*e)),
{
    match outcome {
        Ok(()) => IpcResponse::Success(ResponseData::ConfigReloaded),
        Err(e) => IpcResponse::Error { message: e.message() },
    }
}

/// What a reload does: stop every running watch, then start the watches of
/// the new configuration as at start-up.
pub struct ReloadPlan {
    pub stop: Vec<String>,
    pub start: Vec<StartupAction>,
}

/// The reload plan for the running watch ids `running` and the new
/// configuration's watches: stop all of `running`, in order, then act on each
/// new watch as at start-up.
pub fn reload_plan(running: Vec<String>, watches: &Vec<WatchConfig>) -> (p: ReloadPlan)
    ensures
        p.stop@ == running@,
        p.start@.len() == watches@.len(),
        forall|i: int| 0 <= i < watches@.len() ==> starts_as(#[trigger] watches@[i], p.start@[i]),
{
    ReloadPlan { stop: running, start: startup_plan(watches) }
}

/// Disabling a registered watch makes the listing show it as not watching,
/// and enabling it makes the listing show it as watching again; the watch
/// stays registered under its id either way.
pub proof fn lemma_disabled_watch_listed_idle<H>(s: Seq<WatchEntry<H>>, id: Seq<char>, files: u64)
    requires
        unique_ids(s),
        has_id(s, id),
    ensures
        ({
            let k = index_of_id(s, id);
            let off = after_set_enabled(s, id, false);
            let on = after_set_enabled(s, id, true);
            &&& off[k].config.id@ == id && on[k].config.id@ == id
            &&& !listed(off[k].config, files, off[k].watching).is_watching
            &&& listed(on[k].config, files, on[k].watching).is_watching
        }),
{
    let k = index_of_id(s, id);
    assert(0 <= k < s.len() && s[k].config.id@ == id);
}

} // verus!
