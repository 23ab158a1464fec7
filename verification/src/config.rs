//! Configuration: the daemon's settings and the list of watched directories,
//! their defaults, where they live, and what loading them decides.
use crate::error::OuroboError;
use crate::paths::{join, parent, path_join, path_parent};
use crate::text::{cat3, opt_view};
use vstd::prelude::*;
use vstd::string::*;

verus! {

/// The whole configuration file.
#[derive(Debug, Clone, PartialEq)]
pub struct AppConfig {
    pub daemon: DaemonConfig,
    pub watches: Vec<WatchConfig>,
}

/// Settings of the daemon itself.
#[derive(Debug, Clone, PartialEq)]
pub struct DaemonConfig {
    pub ipc_path: String,
    pub debounce_ms: u64,
    pub log_file: Option<String>,
    pub log_level: String,
}

/// One watched directory and where its changes are copied.
#[derive(Debug, Clone, PartialEq)]
pub struct WatchConfig {
    pub id: String,
    pub label: String,
    pub source: String,
    pub target: TargetConfig,
    pub exclude: Vec<String>,
    pub enabled: bool,
}

/// Where a watch's backups go.
#[derive(Debug, Clone, PartialEq)]
pub enum TargetConfig {
    Local { path: String },
    Smb { host: String, share: String, path: String, username: String },
}

/// The value a watch's `enabled` flag takes when the file leaves it out.
pub fn default_true() -> (b: bool)
    ensures
        b,
{
    true
}

/// The debounce interval of a fresh configuration, in milliseconds.
pub const DEFAULT_DEBOUNCE_MS: u64 = 500;

impl DaemonConfig {
    /// Default daemon settings around the given IPC path: a 500 ms debounce,
    /// no log file and the `info` log level.
    pub fn with_ipc_path(ipc_path: String) -> (d: Self)
        ensures
            d.ipc_path == ipc_path,
            d.debounce_ms == 500,
            d.log_file is None,
            d.log_level@ == "info"@,
    {
        DaemonConfig {
            ipc_path,
            debounce_ms: DEFAULT_DEBOUNCE_MS,
            log_file: None,
            log_level: String::from_str("info"),
        }
    }
}

impl AppConfig {
    /// The default configuration around the given IPC path: default daemon
    /// settings and no watches.
    pub fn with_ipc_path(ipc_path: String) -> (c: Self)
        ensures
            is_default_config(c, ipc_path),
    {
        AppConfig { daemon: DaemonConfig::with_ipc_path(ipc_path), watches: Vec::new() }
    }
}

/// The socket path: `ourobo.sock` in the runtime directory when one is given,
/// else in `.ourobo` under the home directory, else under `/tmp`.
pub open spec fn ipc_path_spec(runtime_dir: Option<Seq<char>>, home: Option<Seq<char>>) -> Seq<char> {
    let base = match runtime_dir {
        Some(r) => r,
        None => join(
            match home {
                Some(h) => h,
                None => "/tmp"@,
            },
            ".ourobo"@,
        ),
    };
    join(base, "ourobo.sock"@)
}

/// The socket path for the given runtime and home directories.
pub fn ipc_path_from(runtime_dir: Option<String>, home: Option<String>) -> (p: String)
    ensures
        p@ == ipc_path_spec(
            opt_view(runtime_dir),
            opt_view(home),
        ),
{
    let base = match runtime_dir {
        Some(r) => r,
        None => {
            let h = match home {
                Some(h) => h,
                None => String::from_str("/tmp"),
            };
            path_join(h.as_str(), ".ourobo")
        },
    };
    path_join(base.as_str(), "ourobo.sock")
}

/// Calls `dirs::home_dir`, the current user's home directory as the
/// environment and the user database give it, and hands it on as text.
/// Nothing is claimed of the result: it depends on the environment.
#[verifier::external_body]
fn home_dir() -> Option<String> {
    dirs::home_dir().map(|p| p.to_string_lossy().into_owned())
}

/// The socket path for the given runtime directory, with the home directory
/// of the current user.
pub fn default_ipc_path_for(runtime_dir: Option<String>) -> (p: String)
    ensures
        exists|h: Option<Seq<char>>|
            p@ == ipc_path_spec(
                opt_view(runtime_dir),
                h,
            ),
{
    let home = home_dir();
    let ghost h = opt_view(home);
    let p = ipc_path_from(runtime_dir, home);
    assert(p@ == ipc_path_spec(opt_view(runtime_dir), h));
    p
}

/// The configuration file: `.config/ourobo/config.toml` under the home
/// directory, or `ourobo/config.toml` under the current directory when there
/// is no home directory.
pub open spec fn config_path_spec(home: Option<Seq<char>>) -> Seq<char> {
    let base = match home {
        Some(h) => join(h, ".config"@),
        None => "."@,
    };
    join(join(base, "ourobo"@), "config.toml"@)
}

/// The configuration file for the given home directory.
pub fn config_path_from(home: Option<String>) -> (p: String)
    ensures
        p@ == config_path_spec(opt_view(home)),
{
    let base = match home {
        Some(h) => path_join(h.as_str(), ".config"),
        None => String::from_str("."),
    };
    let o = path_join(base.as_str(), "ourobo");
    path_join(o.as_str(), "config.toml")
}

/// The configuration file of the current user, below the home directory.
pub fn default_config_path() -> (p: String)
    ensures
        exists|h: Option<Seq<char>>| p@ == config_path_spec(h),
{
    let dir = home_dir();
    let ghost d = opt_view(dir);
    let p = config_path_from(dir);
    assert(p@ == config_path_spec(d));
    p
}

/// Whether `c` is the default configuration around `ipc_path`.
pub open spec fn is_default_config(c: AppConfig, ipc_path: String) -> bool {
    &&& c.daemon.ipc_path == ipc_path
    &&& c.daemon.debounce_ms == 500
    &&& c.daemon.log_file is None
    &&& c.daemon.log_level@ == "info"@
    &&& c.watches@.len() == 0
}

/// What loading the configuration comes to.
#[derive(Debug, Clone, PartialEq)]
pub enum ConfigLoad {
    /// The file was read and parsed.
    Loaded(AppConfig),
    /// There was no file: this default is used and is to be written out.
    CreateDefault(AppConfig),
    /// The file could not be read or parsed.
    Failed(OuroboError),
}

/// Whether `r` is the outcome of loading the configuration when reading the
/// file gave `loaded`: a loaded configuration is kept; a missing file gives
/// the default configuration around `ipc_path`, to be saved; any other error
/// stands.
pub open spec fn load_decided(loaded: Result<AppConfig, OuroboError>, ipc_path: String, r: ConfigLoad) -> bool {
    match loaded {
        Ok(c) => r == ConfigLoad::Loaded(c),
        Err(e) => if e is ConfigNotFound {
            r matches ConfigLoad::CreateDefault(d) && is_default_config(d, ipc_path)
        } else {
            r == ConfigLoad::Failed(e)
        },
    }
}

/// The configuration a successful outcome goes on with.
pub open spec fn settled_config(r: ConfigLoad) -> Option<AppConfig> {
    match r {
        ConfigLoad::Loaded(c) => Some(c),
        ConfigLoad::CreateDefault(c) => Some(c),
        ConfigLoad::Failed(_) => None,
    }
}

/// Loading twice settles: when the first load succeeds (reading the file,
/// or creating it with the defaults) and the second read of the file gives
/// back the configuration the first one went on with (nothing else touched
/// the file, and what was saved reads back as itself), the second load
/// keeps that same configuration and writes nothing. A missing file is
/// created at most once.
pub proof fn lemma_load_or_default_settles(
    first_read: Result<AppConfig, OuroboError>,
    second_read: Result<AppConfig, OuroboError>,
    ipc_path: String,
    first: ConfigLoad,
    second: ConfigLoad,
)
    requires
        load_decided(first_read, ipc_path, first),
        load_decided(second_read, ipc_path, second),
        settled_config(first) is Some,
        second_read == Ok::<AppConfig, OuroboError>(settled_config(first)->Some_0),
    ensures
        second == ConfigLoad::Loaded(settled_config(first)->Some_0),
        settled_config(second) == settled_config(first),
        !(second is CreateDefault),
{
}

impl AppConfig {
    /// The error for a configuration file that could not be read: a missing
    /// file is `ConfigNotFound`, any other failure is a `Config` error that
    /// names the file and the reason.
    pub fn read_failure(path: &str, not_found: bool, reason: &str) -> (e: OuroboError)
        ensures
            not_found ==> (e is ConfigNotFound && e->ConfigNotFound_0@ == path@),
            !not_found ==> (e is Config && e->Config_0@ == "failed to read "@ + path@ + ": "@ + reason@),
    {
        if not_found {
            OuroboError::ConfigNotFound(String::from_str(path))
        } else {
            let mut m = cat3("failed to read ", path, ": ");
            m.append(reason);
            OuroboError::Config(m)
        }
    }

    /// Decides on the outcome of loading the file: a loaded configuration is
    /// kept; a missing file gives the default configuration around the given
    /// IPC path, to be saved; any other error stands.
    pub fn load_or_default(loaded: Result<AppConfig, OuroboError>, ipc_path: String) -> (r: ConfigLoad)
        ensures
            load_decided(loaded, ipc_path, r),
    {
        match loaded {
            Ok(c) => ConfigLoad::Loaded(c),
            Err(OuroboError::ConfigNotFound(_)) => ConfigLoad::CreateDefault(AppConfig::with_ipc_path(ipc_path)),
            Err(e) => ConfigLoad::Failed(e),
        }
    }

    /// The directory to create before the configuration is written to `path`.
    pub fn save_dir(path: &str) -> (d: Option<String>)
        ensures
            d matches Some(x) ==> parent(path@) == Some(x@),
            d is None ==> parent(path@) is None,
    {
        path_parent(path)
    }
}

} // verus!
