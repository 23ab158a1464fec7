# ourobo

The verified core of a file backup tool that watches directories and copies
every changed file to a backup location, run as a daemon with command-line,
graphical and menu-bar clients that talk to it over a local socket.

`src/` is the library, written in Verus and proved:

- `paths` — Unix path arithmetic on text (components, joining, prefix
  stripping, parents) with the proofs that joining a relative path below a
  root keeps the root's components and that stripping the root gives the
  relative path back.
- `backend` — the local backend's destination paths: absolute paths and
  paths with `..` are refused, and every accepted destination stays below
  the backup root.
- `strategy` — the `BackupStrategy` trait (a plan per file event, a result
  once the backend has acted, each stated by the strategy's own spec
  functions) and copy-on-change, its implementation: what a created,
  modified or deleted file turns into, and the proof that a change is backed
  up in the same relative place.
- `engine` — the registry of running watches, keyed by id, with distinct
  ids; pausing and resuming a watch; what happens to each delivered event
  (ignored while paused unless asked for by hand, planned, settled) and the
  per-watch counters it updates.
- `glob` — exclude patterns (`*`, `**`, `?`), matched against a file's path
  below the watched directory and against its name.
- `daemon` — which watches start (a disabled local watch is registered
  paused, so that `enable` can resume it), how each request is planned
  (including enable, disable, manual backup and reload) and answered.
- `config`, `error`, `ipc`, `cli`, `tray`, `gui`, `watcher`, `text` —
  configuration defaults (`~/.config/ourobo/config.toml`) and load
  decisions, error texts, the line protocol with its per-message size limit,
  the clients' output, and the graphical client's state: status and watch
  list after each poll, the removal awaiting confirmation, the Add Watch
  request, and notifications that expire.

`app/` holds the programs: file and socket I/O, the async runtime, the file
watcher, serialization, argument parsing and the windows. It picks the
program by the name it is run under (`ourobo-daemon`, `ourobo-gui`,
`ourobo-tray`, otherwise the command-line client).

The menu-bar program (`app/tray.rs`) is written against the `tray-icon`,
`muda` and `tao` crates, which are left out of `Cargo.toml` to keep the
dependency graph, already large with the graphical client's `eframe`,
within bounds; that one file therefore does not build as the crate stands.
Its decisions (`tray` in `src/`) are verified and tested like the rest.
