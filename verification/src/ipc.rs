//! The messages daemon and clients exchange, one per line, and what a
//! connection does with each line it reads.
use crate::config::WatchConfig;
use crate::error::OuroboError;
use crate::text::{cat, cat3, is_white, trim, trim_end, trim_start, trimmed};
use vstd::prelude::*;
use vstd::string::*;

verus! {

/// A request from a client to the daemon.
#[derive(Debug, Clone, PartialEq)]
pub enum IpcCommand {
    Ping,
    Status,
    AddWatch(WatchConfig),
    RemoveWatch { id: String },
    ListWatches,
    SetWatchEnabled { id: String, enabled: bool },
    TriggerBackup { id: String },
    ReloadConfig,
    Shutdown,
}

/// The daemon's answer to one request.
#[derive(Debug, Clone, PartialEq)]
pub enum IpcResponse {
    Success(ResponseData),
    Error { message: String },
}

/// What a successful answer carries.
#[derive(Debug, Clone, PartialEq)]
pub enum ResponseData {
    Pong,
    DaemonStatus(DaemonStatus),
    WatchList(Vec<WatchStatus>),
    WatchAdded { id: String },
    WatchRemoved { id: String },
    WatchUpdated { id: String },
    BackupTriggered { id: String },
    ConfigReloaded,
    ShuttingDown,
    Empty,
}

/// The daemon's state as reported to clients.
#[derive(Debug, Clone, PartialEq)]
pub struct DaemonStatus {
    pub uptime_secs: u64,
    pub active_watches: usize,
    pub total_files_backed_up: u64,
    pub last_error: Option<String>,
}

/// One watch as reported to clients.
#[derive(Debug, Clone, PartialEq)]
pub struct WatchStatus {
    pub config: WatchConfig,
    pub files_backed_up: u64,
    pub last_backup: Option<String>,
    pub last_error: Option<String>,
    pub is_watching: bool,
}

/// The longest message the daemon accepts, in bytes, line terminator included.
pub const MAX_MESSAGE_BYTES: u64 = 1048576;

/// A message as written on the wire: its text followed by a newline.
pub fn frame_message(text: &str) -> (line: String)
    ensures
        line@ == text@ + "\n"@,
{
    cat(text, "\n")
}

/// The message a received line carries: the line without surrounding white
/// space, the line terminator included.
pub fn line_message(line: &str) -> (text: String)
    ensures
        text@ == trim(line@),
{
    trimmed(line)
}

/// The answer to a line that is not a valid request.
pub fn invalid_command_response(reason: &str) -> (r: IpcResponse)
    ensures
        r matches IpcResponse::Error { message } && message@ == "invalid command: "@ + reason@,
{
    IpcResponse::Error { message: cat("invalid command: ", reason) }
}

/// The error for a client that cannot reach the daemon at `path`.
pub fn connect_failure(path: &str, reason: &str) -> (e: OuroboError)
    ensures
        e matches OuroboError::Ipc(m) && m@ == "connect to "@ + path@ + ": "@ + reason@,
{
    let mut m = cat3("connect to ", path, ": ");
    m.append(reason);
    OuroboError::Ipc(m)
}

/// The error for a server that cannot listen at `path`.
pub fn bind_failure(path: &str, reason: &str) -> (e: OuroboError)
    ensures
        e matches OuroboError::Ipc(m) && m@ == "bind "@ + path@ + ": "@ + reason@,
{
    let mut m = cat3("bind ", path, ": ");
    m.append(reason);
    OuroboError::Ipc(m)
}

/// The error for a failed transport step (`write`, `read`, `accept`, ...).
pub fn transport_failure(step: &str, reason: &str) -> (e: OuroboError)
    ensures
        e matches OuroboError::Ipc(m) && m@ == step@ + ": "@ + reason@,
{
    OuroboError::Ipc(cat3(step, ": ", reason))
}

/// What reading the next line of a connection came to.
#[derive(Debug, Clone, PartialEq)]
pub enum ReadOutcome {
    /// The client closed the connection.
    Eof,
    /// A line was read, as received, `bytes` long.
    Line { text: String, bytes: u64 },
    /// Reading failed, for the reason given.
    Failed(String),
}

/// What a connection does next.
#[derive(Debug, Clone, PartialEq)]
pub enum SessionStep {
    /// Stop serving the connection.
    Close,
    /// Parse this message and answer it.
    Answer(String),
    /// Send this answer without parsing, drop the rest of the line, and go on.
    Reject(IpcResponse),
}

/// The answer to a message longer than `MAX_MESSAGE_BYTES`.
pub open spec fn too_long(r: IpcResponse) -> bool {
    r matches IpcResponse::Error { message } && message@ == "invalid command: message longer than 1048576 bytes"@
}

/// The message a line of `bytes` bytes hands to the handler: its trimmed
/// text, or none when the line is longer than `MAX_MESSAGE_BYTES`.
pub open spec fn read_step(text: Seq<char>, bytes: nat) -> Option<Seq<char>> {
    if bytes > MAX_MESSAGE_BYTES {
        None
    } else {
        Some(trim(text))
    }
}

/// The next step of a connection after a read: the end of input and read
/// failures close it; a line longer than `MAX_MESSAGE_BYTES` is rejected with
/// an error answer; any other line is answered, as its trimmed message.
pub fn after_read(outcome: ReadOutcome) -> (s: SessionStep)
    ensures
        (outcome is Eof || outcome is Failed) ==> s == SessionStep::Close,
        outcome matches ReadOutcome::Line { text, bytes } ==> match read_step(text@, bytes as nat) {
            None => s matches SessionStep::Reject(r) && too_long(r),
            Some(m) => s matches SessionStep::Answer(a) && a@ == m,
        },
{
    match outcome {
        ReadOutcome::Eof => SessionStep::Close,
        ReadOutcome::Failed(_) => SessionStep::Close,
        ReadOutcome::Line { text, bytes } => {
            if bytes > MAX_MESSAGE_BYTES {
                SessionStep::Reject(
                    IpcResponse::Error { message: String::from_str("invalid command: message longer than 1048576 bytes") },
                )
            } else {
                SessionStep::Answer(line_message(text.as_str()))
            }
        },
    }
}

/// Whether a connection goes on after writing an answer: only if the write
/// succeeded.
pub fn after_write(written: bool) -> (go_on: bool)
    ensures
        go_on == written,
{
    written
}

/// A message without white space at either end is read back from its line
/// exactly as it was sent.
pub proof fn lemma_frame_roundtrip(text: Seq<char>)
    requires
        text.len() == 0 || (!is_white(text[0]) && !is_white(text.last())),
    ensures
        trim(text + "\n"@) == text,
{
    reveal_strlit("\n");
    let line = text + "\n"@;
    assert(line.last() == '\n');
    assert(line.drop_last() =~= text);
    if text.len() == 0 {
        assert(line.drop_first() =~= Seq::<char>::empty());
        assert(trim_start(line) == trim_start(Seq::<char>::empty()));
    } else {
        assert(line[0] == text[0]);
        assert(trim_start(line) == line);
        assert(trim_end(line) == trim_end(text));
    }
}

/// The length of the first line of `s`, its newline included (all of `s`
/// when there is no newline).
pub open spec fn first_line_len(s: Seq<char>) -> nat
    decreases s.len(),
{
    if s.len() == 0 {
        0
    } else if s[0] == '\n' {
        1
    } else {
        1 + first_line_len(s.drop_first())
    }
}

/// `s` cut into lines, each with its newline (the last one without, if `s`
/// does not end in a newline): how a reader of lines takes a stream apart.
pub open spec fn lines_of(s: Seq<char>) -> Seq<Seq<char>>
    decreases s.len(),
{
    if s.len() == 0 {
        Seq::empty()
    } else {
        let k = first_line_len(s) as int;
        if 0 < k <= s.len() {
            seq![s.take(k)] + lines_of(s.skip(k))
        } else {
            seq![s]
        }
    }
}

/// The messages `msgs` written one after the other, each framed as a line.
pub open spec fn framed_all(msgs: Seq<Seq<char>>) -> Seq<char>
    decreases msgs.len(),
{
    if msgs.len() == 0 {
        Seq::empty()
    } else {
        msgs[0] + "\n"@ + framed_all(msgs.drop_first())
    }
}

/// Whether `m` holds no newline.
pub open spec fn no_newline(m: Seq<char>) -> bool {
    forall|j: int| 0 <= j < m.len() ==> m[j] != '\n'
}

/// A message that a line carries intact: no newline inside, and no white
/// space at either end.
pub open spec fn clean_message(m: Seq<char>) -> bool {
    &&& no_newline(m)
    &&& (m.len() == 0 || (!is_white(m[0]) && !is_white(m.last())))
}

proof fn lemma_first_line_of_frame(m: Seq<char>, rest: Seq<char>)
    requires
        no_newline(m),
    ensures
        first_line_len(m + "\n"@ + rest) == m.len() + 1,
    decreases m.len(),
{
    reveal_strlit("\n");
    let s = m + "\n"@ + rest;
    if m.len() == 0 {
        assert(s[0] == '\n');
    } else {
        assert(s[0] == m[0]);
        assert(s.drop_first() =~= m.drop_first() + "\n"@ + rest);
        lemma_first_line_of_frame(m.drop_first(), rest);
    }
}

proof fn lemma_lines_of_framed(msgs: Seq<Seq<char>>)
    requires
        forall|i: int| 0 <= i < msgs.len() ==> no_newline(#[trigger] msgs[i]),
    ensures
        lines_of(framed_all(msgs)) =~= msgs.map_values(|m: Seq<char>| m + "\n"@),
    decreases msgs.len(),
{
    reveal_strlit("\n");
    if msgs.len() > 0 {
        let m = msgs[0];
        let rest = framed_all(msgs.drop_first());
        let s = framed_all(msgs);
        assert(s == m + "\n"@ + rest);
        lemma_first_line_of_frame(m, rest);
        let k: int = m.len() as int + 1;
        assert(s.take(k) =~= m + "\n"@);
        assert(s.skip(k) =~= rest);
        lemma_lines_of_framed(msgs.drop_first());
        assert(lines_of(s) == seq![s.take(k)] + lines_of(s.skip(k)));
    }
}

/// Over one connection, messages sent one per line come out of the line
/// reader in the order sent, one line each, and each one no longer than
/// `MAX_MESSAGE_BYTES` (`sizes` holds each line's size in bytes) is handed
/// to the handler exactly as sent; the answers, framed the same way, come
/// back to the client in the same order, each read back exactly as written.
pub proof fn lemma_connection_in_order(msgs: Seq<Seq<char>>, sizes: Seq<nat>, answers: Seq<Seq<char>>)
    requires
        sizes.len() == msgs.len(),
        forall|i: int| 0 <= i < msgs.len() ==> clean_message(#[trigger] msgs[i]),
        forall|i: int| 0 <= i < msgs.len() ==> #[trigger] sizes[i] <= MAX_MESSAGE_BYTES,
        forall|i: int| 0 <= i < answers.len() ==> clean_message(#[trigger] answers[i]),
    ensures
        lines_of(framed_all(msgs)).len() == msgs.len(),
        forall|i: int|
            0 <= i < msgs.len() ==> read_step(#[trigger] lines_of(framed_all(msgs))[i], sizes[i]) == Some(msgs[i]),
        lines_of(framed_all(answers)).len() == answers.len(),
        forall|i: int| 0 <= i < answers.len() ==> trim(#[trigger] lines_of(framed_all(answers))[i]) == answers[i],
{
    lemma_lines_of_framed(msgs);
    lemma_lines_of_framed(answers);
    assert forall|i: int| 0 <= i < msgs.len() implies read_step(
        #[trigger] lines_of(framed_all(msgs))[i],
        sizes[i],
    ) == Some(msgs[i]) by {
        assert(clean_message(msgs[i]));
        lemma_frame_roundtrip(msgs[i]);
    }
    assert forall|i: int| 0 <= i < answers.len() implies trim(#[trigger] lines_of(framed_all(answers))[i])
        == answers[i] by {
        assert(clean_message(answers[i]));
        lemma_frame_roundtrip(answers[i]);
    }
}

} // verus!
