//! The library's error type and the text each error reads as.
use crate::text::{cat, cat3};
use vstd::prelude::*;
use vstd::string::*;

verus! {

/// What can go wrong. Paths are held as text.
#[derive(Debug, Clone, PartialEq)]
pub enum OuroboError {
    /// An input/output failure, with the system's description of it.
    Io(String),
    Config(String),
    ConfigNotFound(String),
    Backend(String),
    Watch { path: String, message: String },
    Ipc(String),
    PathNotFound(String),
    Serialization(String),
    TomlParse(String),
    TomlSerialize(String),
    DuplicateWatch(String),
    WatchNotFound(String),
}

/// The text an error reads as.
pub open spec fn error_text(e: OuroboError) -> Seq<char> {
    match e {
        OuroboError::Io(m) => "IO error: "@ + m@,
        OuroboError::Config(m) => "config error: "@ + m@,
        OuroboError::ConfigNotFound(p) => "config file not found: "@ + p@,
        OuroboError::Backend(m) => "backend error: "@ + m@,
        OuroboError::Watch { path, message } => "watch error on "@ + path@ + ": "@ + message@,
        OuroboError::Ipc(m) => "IPC error: "@ + m@,
        OuroboError::PathNotFound(p) => "path not found: "@ + p@,
        OuroboError::Serialization(m) => "serialization error: "@ + m@,
        OuroboError::TomlParse(m) => "TOML parse error: "@ + m@,
        OuroboError::TomlSerialize(m) => "TOML serialization error: "@ + m@,
        OuroboError::DuplicateWatch(id) => "duplicate watch ID: "@ + id@,
        OuroboError::WatchNotFound(id) => "watch not found: "@ + id@,
    }
}

impl OuroboError {
    /// The text this error reads as.
    pub fn message(&self) -> (s: String)
        ensures
            s@ == error_text(*self),
    {
        match self {
            OuroboError::Io(m) => cat("IO error: ", m.as_str()),
            OuroboError::Config(m) => cat("config error: ", m.as_str()),
            OuroboError::ConfigNotFound(p) => cat("config file not found: ", p.as_str()),
            OuroboError::Backend(m) => cat("backend error: ", m.as_str()),
            OuroboError::Watch { path, message } => {
                let mut s = cat3("watch error on ", path.as_str(), ": ");
                s.append(message.as_str());
                s
            },
            OuroboError::Ipc(m) => cat("IPC error: ", m.as_str()),
            OuroboError::PathNotFound(p) => cat("path not found: ", p.as_str()),
            OuroboError::Serialization(m) => cat("serialization error: ", m.as_str()),
            OuroboError::TomlParse(m) => cat("TOML parse error: ", m.as_str()),
            OuroboError::TomlSerialize(m) => cat("TOML serialization error: ", m.as_str()),
            OuroboError::DuplicateWatch(id) => cat("duplicate watch ID: ", id.as_str()),
            OuroboError::WatchNotFound(id) => cat("watch not found: ", id.as_str()),
        }
    }
}

} // verus!
