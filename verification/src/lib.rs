//! Verified core of a file backup tool: configuration, path confinement,
//! the copy-on-change strategy, the watch registry, the IPC protocol and the
//! decisions the daemon and its clients make.

pub mod backend;
pub mod cli;
pub mod config;
pub mod daemon;
pub mod engine;
pub mod error;
pub mod glob;
pub mod gui;
pub mod ipc;
pub mod paths;
pub mod strategy;
pub mod text;
pub mod tray;
pub mod watcher;
