//! Turning the file watcher's debounced notifications into backup events.
use crate::error::OuroboError;
use crate::strategy::FileEvent;
use vstd::prelude::*;

verus! {

/// The kind of a debounced notification.
#[derive(Debug, Clone, Copy, PartialEq, Eq)]
pub enum NoticeKind {
    /// Something happened to the path.
    Any,
    /// Something keeps happening to the path (the debounce timed out).
    AnyContinuous,
    /// A kind of notification this library does not know.
    Other,
}

/// The backup event for a notification about `path`, given whether the path
/// exists and is a regular file now. Only plain notifications count: a path
/// that is gone was deleted, a file that is there was modified, and anything
/// else (a directory, a continuing notification) is passed over.
pub fn classify_notice(kind: NoticeKind, path: String, exists: bool, is_file: bool) -> (e: Option<FileEvent>)
    ensures
        kind != NoticeKind::Any ==> e is None,
        kind == NoticeKind::Any && !exists ==> e == Some(FileEvent::Deleted(path)),
        kind == NoticeKind::Any && exists && is_file ==> e == Some(FileEvent::Modified(path)),
        kind == NoticeKind::Any && exists && !is_file ==> e is None,
{
    match kind {
        NoticeKind::Any => {
            if exists {
                if is_file {
                    Some(FileEvent::Modified(path))
                } else {
                    None
                }
            } else {
                Some(FileEvent::Deleted(path))
            }
        },
        NoticeKind::AnyContinuous | NoticeKind::Other => None,
    }
}

/// The error for a watcher that could not be set up on `path`.
pub fn watch_error(path: String, message: String) -> (e: OuroboError)
    ensures
        e == (OuroboError::Watch { path, message }),
{
    OuroboError::Watch { path, message }
}

} // verus!
