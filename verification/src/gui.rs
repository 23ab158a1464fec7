//! The state shown by the graphical client, and how each status poll changes it.
use crate::cli::{render_response, response_lines};
use crate::config::{TargetConfig, WatchConfig};
use crate::error::{error_text, OuroboError};
use crate::ipc::{IpcCommand, IpcResponse, ResponseData, WatchStatus};
use crate::text::{cat, decimal, fmt_u64};
use vstd::prelude::*;
use vstd::string::*;

verus! {

/// How often the client asks the daemon for its status, in seconds.
pub const REFRESH_SECS: u64 = 2;

/// The status line for a daemon up `uptime` seconds with `watches` watches
/// that backed up `files` files.
pub open spec fn status_summary(uptime: nat, watches: nat, files: nat) -> Seq<char> {
    "Uptime: "@ + decimal(uptime) + "s | "@ + decimal(watches) + " watches | "@ + decimal(files) + " files backed up"@
}

/// How long a notification stays up, in milliseconds.
pub const TOAST_MS: u64 = 4000;

/// A notification: its text, whether it reports a failure, and the time
/// (in milliseconds) at which it goes away.
#[derive(Debug, Clone, PartialEq)]
pub struct Toast {
    pub text: String,
    pub is_error: bool,
    pub expires_at_ms: u64,
}

/// The fields of the Add Watch dialog.
#[derive(Debug, Clone, PartialEq)]
pub struct AddForm {
    pub id: String,
    pub label: String,
    pub source: String,
    pub target: String,
}

/// The time at which a notification shown at `now_ms` goes away.
pub open spec fn expiry(now_ms: u64) -> u64 {
    if now_ms > u64::MAX - TOAST_MS {
        u64::MAX
    } else {
        (now_ms + TOAST_MS) as u64
    }
}

/// The notification for the answer to a request made from the window: the
/// first line the command-line client would print for a successful answer
/// (`Done` when it prints none), `Error: ` and the message for a refusal, and
/// the error's text when the request failed.
pub open spec fn toast_of(reply: Result<IpcResponse, OuroboError>) -> (Seq<char>, bool) {
    match reply {
        Ok(IpcResponse::Success(d)) => (
            if response_lines(d).len() > 0 {
                response_lines(d)[0]
            } else {
                "Done"@
            },
            false,
        ),
        Ok(IpcResponse::Error { message }) => ("Error: "@ + message@, true),
        Err(e) => (error_text(e), true),
    }
}

/// The notifications of `s` still up at `now_ms`, in order.
pub open spec fn live_toasts(s: Seq<Toast>, now_ms: u64) -> Seq<Toast>
    decreases s.len(),
{
    if s.len() == 0 {
        Seq::empty()
    } else if s.last().expires_at_ms > now_ms {
        live_toasts(s.drop_last(), now_ms).push(s.last())
    } else {
        live_toasts(s.drop_last(), now_ms)
    }
}

/// Whether the Add Watch dialog is filled in: an id, a source and a target.
pub open spec fn form_complete(f: AddForm) -> bool {
    f.id@.len() > 0 && f.source@.len() > 0 && f.target@.len() > 0
}

/// Whether `c` is the watch the Add Watch dialog describes: its id, label
/// and source, backing up to the local target, enabled, with no exclude
/// patterns.
pub open spec fn form_watch(f: AddForm, c: WatchConfig) -> bool {
    &&& c.id == f.id
    &&& c.label == f.label
    &&& c.source == f.source
    &&& c.target == (TargetConfig::Local { path: f.target })
    &&& c.exclude@.len() == 0
    &&& c.enabled
}

/// What the graphical client shows: whether it reaches the daemon and at
/// which socket, a line of status, the watches, the removal waiting for
/// confirmation, and the notifications.
pub struct OuroboApp {
    connected: bool,
    status_text: String,
    socket_path: String,
    watches: Vec<WatchStatus>,
    pending_removal: Option<String>,
    toasts: Vec<Toast>,
}

impl OuroboApp {
    /// Whether the client reaches the daemon.
    pub closed spec fn connected_spec(&self) -> bool {
        self.connected
    }

    /// The status line.
    pub closed spec fn status_spec(&self) -> Seq<char> {
        self.status_text@
    }

    /// The socket the client talks to.
    pub closed spec fn socket_spec(&self) -> Seq<char> {
        self.socket_path@
    }

    /// The watches as last listed by the daemon.
    pub closed spec fn watches_spec(&self) -> Seq<WatchStatus> {
        self.watches@
    }

    /// The id of the watch whose removal awaits confirmation, if any.
    pub closed spec fn pending_spec(&self) -> Option<String> {
        self.pending_removal
    }

    /// The notifications, oldest first.
    pub closed spec fn toasts_spec(&self) -> Seq<Toast> {
        self.toasts@
    }

    /// A client that has not reached the daemon yet and has no socket set:
    /// no watches, nothing to confirm, no notifications.
    pub fn new() -> (a: Self)
        ensures
            !a.connected_spec(),
            a.status_spec() == "Not connected to daemon"@,
            a.socket_spec().len() == 0,
            a.watches_spec().len() == 0,
            a.pending_spec() is None,
            a.toasts_spec().len() == 0,
    {
        OuroboApp {
            connected: false,
            status_text: String::from_str("Not connected to daemon"),
            socket_path: String::new(),
            watches: Vec::new(),
            pending_removal: None,
            toasts: Vec::new(),
        }
    }

    /// The socket the client talks to.
    pub fn socket_path(&self) -> (p: &String)
        ensures
            p@ == self.socket_spec(),
    {
        &self.socket_path
    }

    /// Points the client at another socket: it counts as disconnected, with
    /// no watches, until the next poll there.
    pub fn set_socket_path(&mut self, path: String)
        ensures
            final(self).socket_spec() == path@,
            !final(self).connected_spec(),
            final(self).status_spec() == "Not connected to daemon"@,
            final(self).watches_spec().len() == 0,
            final(self).pending_spec() == old(self).pending_spec(),
            final(self).toasts_spec() == old(self).toasts_spec(),
    {
        self.socket_path = path;
        self.connected = false;
        self.status_text = String::from_str("Not connected to daemon");
        self.watches = Vec::new();
    }

    /// The watches as last listed by the daemon.
    pub fn watches(&self) -> (w: &Vec<WatchStatus>)
        ensures
            w@ == self.watches_spec(),
    {
        &self.watches
    }

    /// The id of the watch whose removal awaits confirmation, if any.
    pub fn pending_removal(&self) -> (p: &Option<String>)
        ensures
            *p == self.pending_spec(),
    {
        &self.pending_removal
    }

    /// The notifications, oldest first.
    pub fn toasts(&self) -> (t: &Vec<Toast>)
        ensures
            t@ == self.toasts_spec(),
    {
        &self.toasts
    }

    /// Takes in the answer to a listing poll: a watch list connects and
    /// replaces the watches shown; any other answer connects and keeps them;
    /// a failed request disconnects and clears them.
    pub fn apply_list(&mut self, reply: Result<IpcResponse, OuroboError>)
        ensures
            reply is Ok ==> final(self).connected_spec(),
            reply is Err ==> (!final(self).connected_spec() && final(self).watches_spec().len() == 0
                && final(self).status_spec() == "Not connected to daemon"@),
            reply matches Ok(IpcResponse::Success(ResponseData::WatchList(v))) ==> final(self).watches_spec() == v@,
            (reply is Ok && !(reply matches Ok(IpcResponse::Success(ResponseData::WatchList(_))))) ==> final(self).watches_spec()
                == old(self).watches_spec(),
            reply is Ok ==> final(self).status_spec() == old(self).status_spec(),
            final(self).socket_spec() == old(self).socket_spec(),
            final(self).pending_spec() == old(self).pending_spec(),
            final(self).toasts_spec() == old(self).toasts_spec(),
    {
        match reply {
            Ok(IpcResponse::Success(ResponseData::WatchList(v))) => {
                self.connected = true;
                self.watches = v;
            },
            Ok(_) => {
                self.connected = true;
            },
            Err(_) => {
                self.connected = false;
                self.status_text = String::from_str("Not connected to daemon");
                self.watches = Vec::new();
            },
        }
    }

    /// Asks for confirmation before removing the watch `id`.
    pub fn ask_remove(&mut self, id: String)
        ensures
            final(self).pending_spec() == Some(id),
            final(self).connected_spec() == old(self).connected_spec(),
            final(self).status_spec() == old(self).status_spec(),
            final(self).socket_spec() == old(self).socket_spec(),
            final(self).watches_spec() == old(self).watches_spec(),
            final(self).toasts_spec() == old(self).toasts_spec(),
    {
        self.pending_removal = Some(id);
    }

    /// Drops the removal awaiting confirmation.
    pub fn cancel_remove(&mut self)
        ensures
            final(self).pending_spec() is None,
            final(self).connected_spec() == old(self).connected_spec(),
            final(self).status_spec() == old(self).status_spec(),
            final(self).socket_spec() == old(self).socket_spec(),
            final(self).watches_spec() == old(self).watches_spec(),
            final(self).toasts_spec() == old(self).toasts_spec(),
    {
        self.pending_removal = None;
    }

    /// Confirms the removal awaiting confirmation: the request that removes
    /// that watch, and nothing awaits confirmation any more; none when no
    /// removal was awaiting it.
    pub fn confirm_remove(&mut self) -> (r: Option<IpcCommand>)
        ensures
            old(self).pending_spec() matches Some(id) ==> r == Some(IpcCommand::RemoveWatch { id }),
            old(self).pending_spec() is None ==> r is None,
            final(self).pending_spec() is None,
            final(self).connected_spec() == old(self).connected_spec(),
            final(self).status_spec() == old(self).status_spec(),
            final(self).socket_spec() == old(self).socket_spec(),
            final(self).watches_spec() == old(self).watches_spec(),
            final(self).toasts_spec() == old(self).toasts_spec(),
    {
        match self.pending_removal.take() {
            Some(id) => Some(IpcCommand::RemoveWatch { id }),
            None => None,
        }
    }

    /// Shows a notification with `text` from `now_ms` on.
    pub fn notify(&mut self, text: String, is_error: bool, now_ms: u64)
        ensures
            final(self).toasts_spec() == old(self).toasts_spec().push(
                Toast { text, is_error, expires_at_ms: expiry(now_ms) },
            ),
            final(self).connected_spec() == old(self).connected_spec(),
            final(self).status_spec() == old(self).status_spec(),
            final(self).socket_spec() == old(self).socket_spec(),
            final(self).watches_spec() == old(self).watches_spec(),
            final(self).pending_spec() == old(self).pending_spec(),
    {
        let expires_at_ms = if now_ms > u64::MAX - TOAST_MS {
            u64::MAX
        } else {
            now_ms + TOAST_MS
        };
        self.toasts.push(Toast { text, is_error, expires_at_ms });
    }

    /// Shows, from `now_ms` on, the notification for the answer to a
    /// request made from the window.
    pub fn note_action_reply(&mut self, reply: &Result<IpcResponse, OuroboError>, now_ms: u64)
        ensures
            final(self).toasts_spec().len() == old(self).toasts_spec().len() + 1,
            final(self).toasts_spec().drop_last() == old(self).toasts_spec(),
            final(self).toasts_spec().last().text@ == toast_of(*reply).0,
            final(self).toasts_spec().last().is_error == toast_of(*reply).1,
            final(self).toasts_spec().last().expires_at_ms == expiry(now_ms),
            final(self).connected_spec() == old(self).connected_spec(),
            final(self).status_spec() == old(self).status_spec(),
            final(self).socket_spec() == old(self).socket_spec(),
            final(self).watches_spec() == old(self).watches_spec(),
            final(self).pending_spec() == old(self).pending_spec(),
    {
        let (text, is_error) = match reply {
            Ok(IpcResponse::Success(d)) => {
                let lines = render_response(d);
                if lines.len() > 0 {
                    (lines[0].clone(), false)
                } else {
                    (String::from_str("Done"), false)
                }
            },
            Ok(IpcResponse::Error { message }) => (cat("Error: ", message.as_str()), true),
            Err(e) => (e.message(), true),
        };
        self.notify(text, is_error, now_ms);
    }

    /// Takes down the notifications whose time is up at `now_ms`, keeping
    /// the others in order.
    pub fn expire_toasts(&mut self, now_ms: u64)
        ensures
            final(self).toasts_spec() == live_toasts(old(self).toasts_spec(), now_ms),
            final(self).connected_spec() == old(self).connected_spec(),
            final(self).status_spec() == old(self).status_spec(),
            final(self).socket_spec() == old(self).socket_spec(),
            final(self).watches_spec() == old(self).watches_spec(),
            final(self).pending_spec() == old(self).pending_spec(),
    {
        let mut rest: Vec<Toast> = Vec::new();
        std::mem::swap(&mut rest, &mut self.toasts);
        let ghost all = rest@;
        let n: usize = rest.len();
        let mut kept: Vec<Toast> = Vec::new();
        let mut i: usize = 0;
        while rest.len() > 0
            invariant
                i <= all.len(),
                rest@ == all.skip(i as int),
                rest@.len() + i == all.len(),
                all.len() == n,
                kept@ == live_toasts(all.take(i as int), now_ms),
            decreases rest.len(),
        {
            assert(all.take(i + 1).drop_last() =~= all.take(i as int));
            assert(rest@[0] == all[i as int]);
            let t = rest.remove(0);
            assert(rest@ =~= all.skip(i + 1));
            if t.expires_at_ms > now_ms {
                kept.push(t);
            }
            i = i + 1;
        }
        assert(all.take(i as int) =~= all);
        self.toasts = kept;
    }

    /// Whether the client reaches the daemon.
    pub fn is_connected(&self) -> (b: bool)
        ensures
            b == self.connected_spec(),
    {
        self.connected
    }

    /// The status line.
    pub fn status_text(&self) -> (s: &String)
        ensures
            s@ == self.status_spec(),
    {
        &self.status_text
    }

    /// Takes in the answer to a status poll: a status answer connects and
    /// shows the uptime, watch and file counts; a refusal connects and shows
    /// its message; another answer connects and keeps the line; a failed
    /// request disconnects and says so.
    pub fn apply_reply(&mut self, reply: &Result<IpcResponse, OuroboError>)
        ensures
            reply is Ok ==> final(self).connected_spec(),
            reply is Err ==> (!final(self).connected_spec() && final(self).status_spec() == "Not connected to daemon"@),
            reply matches Ok(IpcResponse::Success(ResponseData::DaemonStatus(s))) ==> final(self).status_spec()
                == status_summary(s.uptime_secs as nat, s.active_watches as nat, s.total_files_backed_up as nat),
            reply matches Ok(IpcResponse::Error { message }) ==> final(self).status_spec() == message@,
            reply matches Ok(IpcResponse::Success(d)) ==> (!(d is DaemonStatus) ==> final(self).status_spec()
                == old(self).status_spec()),
            final(self).socket_spec() == old(self).socket_spec(),
            final(self).watches_spec() == old(self).watches_spec(),
            final(self).pending_spec() == old(self).pending_spec(),
            final(self).toasts_spec() == old(self).toasts_spec(),
    {
        match reply {
            Ok(IpcResponse::Success(ResponseData::DaemonStatus(s))) => {
                let mut t = String::from_str("Uptime: ");
                t.append(fmt_u64(s.uptime_secs).as_str());
                t.append("s | ");
                t.append(fmt_u64(s.active_watches as u64).as_str());
                t.append(" watches | ");
                t.append(fmt_u64(s.total_files_backed_up).as_str());
                t.append(" files backed up");
                self.connected = true;
                self.status_text = t;
            },
            Ok(IpcResponse::Error { message }) => {
                self.connected = true;
                self.status_text = message.clone();
            },
            Ok(IpcResponse::Success(_)) => {
                self.connected = true;
            },
            Err(_) => {
                self.connected = false;
                self.status_text = String::from_str("Not connected to daemon");
            },
        }
    }

    /// The label of the connection indicator.
    pub fn connection_label(&self) -> (s: &'static str)
        ensures
            self.connected_spec() ==> s@ == "Connected"@,
            !self.connected_spec() ==> s@ == "Disconnected"@,
    {
        if self.connected {
            "Connected"
        } else {
            "Disconnected"
        }
    }
}

/// The request that backs up the watch `id` now.
pub fn backup_command(id: &String) -> (c: IpcCommand)
    ensures
        c == (IpcCommand::TriggerBackup { id: *id }),
{
    IpcCommand::TriggerBackup { id: id.clone() }
}

/// The request the Add Watch dialog makes: adding the watch it describes
/// when an id, a source and a target are filled in; else the message to show.
pub fn add_command(form: &AddForm) -> (r: Result<IpcCommand, String>)
    ensures
        form_complete(*form) ==> (r matches Ok(IpcCommand::AddWatch(c)) && form_watch(*form, c)),
        !form_complete(*form) ==> (r matches Err(m) && m@ == "ID, source and target are required"@),
{
    if form.id.as_str().unicode_len() == 0 || form.source.as_str().unicode_len() == 0
        || form.target.as_str().unicode_len() == 0 {
        return Err(String::from_str("ID, source and target are required"));
    }
    Ok(
        IpcCommand::AddWatch(
            WatchConfig {
                id: form.id.clone(),
                label: form.label.clone(),
                source: form.source.clone(),
                target: TargetConfig::Local { path: form.target.clone() },
                exclude: Vec::new(),
                enabled: true,
            },
        ),
    )
}

} // verus!
