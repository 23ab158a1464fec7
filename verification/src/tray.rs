//! What the menu-bar icon shows of the daemon.
use crate::error::{error_text, OuroboError};
use crate::ipc::{IpcResponse, ResponseData};
use crate::text::{cat, contains_text, decimal, fmt_u64, text_contains};
use vstd::prelude::*;
use vstd::string::*;

verus! {

/// A change to the status line of the menu.
#[derive(Debug, Clone, PartialEq)]
pub enum TrayUpdate {
    Status(String),
    Error(String),
}

/// The status line for a daemon with `watches` watches that backed up `files` files.
pub open spec fn summary_text(watches: nat, files: nat) -> Seq<char> {
    decimal(watches) + " watches | "@ + decimal(files) + " files"@
}

/// The update for the daemon's answer to a status request: the watch and
/// file counts of a status answer; the message of a refusal; "Connected" for
/// any other answer; the error's text when the request failed.
pub fn update_from_reply(reply: &Result<IpcResponse, OuroboError>) -> (u: TrayUpdate)
    ensures
        reply matches Ok(IpcResponse::Success(ResponseData::DaemonStatus(s))) ==> (u matches TrayUpdate::Status(t)
            && t@ == summary_text(s.active_watches as nat, s.total_files_backed_up as nat)),
        reply matches Ok(IpcResponse::Error { message }) ==> u == TrayUpdate::Error(*message),
        reply matches Ok(IpcResponse::Success(d)) ==> (!(d is DaemonStatus) ==> (u matches TrayUpdate::Status(t)
            && t@ == "Connected"@)),
        reply matches Err(e) ==> (u matches TrayUpdate::Error(t) && t@ == error_text(*e)),
{
    match reply {
        Ok(IpcResponse::Success(ResponseData::DaemonStatus(s))) => {
            let mut t = fmt_u64(s.active_watches as u64);
            t.append(" watches | ");
            t.append(fmt_u64(s.total_files_backed_up).as_str());
            t.append(" files");
            TrayUpdate::Status(t)
        },
        Ok(IpcResponse::Error { message }) => TrayUpdate::Error(message.clone()),
        Ok(IpcResponse::Success(_)) => TrayUpdate::Status(String::from_str("Connected")),
        Err(e) => TrayUpdate::Error(e.message()),
    }
}

/// The update when the daemon cannot be reached: "No daemon" when the error
/// says the connection was refused or the socket does not exist, else the
/// error's text after "Daemon error: ".
pub fn update_from_connect_error(e: &OuroboError) -> (u: TrayUpdate)
    ensures
        (contains_text(error_text(*e), "Connection refused"@) || contains_text(error_text(*e), "No such file"@))
            ==> (u matches TrayUpdate::Error(t) && t@ == "No daemon"@),
        !(contains_text(error_text(*e), "Connection refused"@) || contains_text(error_text(*e), "No such file"@))
            ==> (u matches TrayUpdate::Error(t) && t@ == "Daemon error: "@ + error_text(*e)),
{
    let msg = e.message();
    if text_contains(msg.as_str(), "Connection refused") || text_contains(msg.as_str(), "No such file") {
        TrayUpdate::Error(String::from_str("No daemon"))
    } else {
        TrayUpdate::Error(cat("Daemon error: ", msg.as_str()))
    }
}

/// The update when the background poller cannot start.
pub fn runtime_error_update(reason: &str) -> (u: TrayUpdate)
    ensures
        u matches TrayUpdate::Error(t) && t@ == "Runtime error: "@ + reason@,
{
    TrayUpdate::Error(cat("Runtime error: ", reason))
}

/// The text the menu's status item shows for an update: a status as it is,
/// an error after a warning sign.
pub fn menu_text(u: &TrayUpdate) -> (s: String)
    ensures
        u matches TrayUpdate::Status(t) ==> s@ == t@,
        u matches TrayUpdate::Error(t) ==> s@ == "\u{26a0} "@ + t@,
{
    match u {
        TrayUpdate::Status(t) => t.clone(),
        TrayUpdate::Error(t) => cat("\u{26a0} ", t.as_str()),
    }
}

} // verus!
