//! The configuration that the supervisor and the relay are started from.

use vstd::prelude::*;
use vstd::string::StringExecFns;

verus! {

/// How much the log records.
#[derive(Debug, Clone, Copy, PartialEq, Eq, Structural)]
pub enum LogLevelConfig {
    Error,
    Warn,
    Info,
    Debug,
    Trace,
}

/// Whether a log file is written, where, and at which level.
#[derive(Debug, Clone)]
pub struct LogConfig {
    pub in_use: bool,
    pub path: String,
    pub level: LogLevelConfig,
}

impl Default for LogConfig {
    /// No log file; the directory `./` and the level `Info` if one is asked for.
    fn default() -> (r: LogConfig)
        ensures
            !r.in_use,
            r.path@ == "./"@,
            r.level == LogLevelConfig::Info,
    {
        LogConfig { in_use: false, path: String::from_str("./"), level: LogLevelConfig::Info }
    }
}

/// The directory under which each backend gets a directory of its own.
#[derive(Debug, Clone)]
pub struct TorDataDirsConfig {
    pub path: String,
    pub clear: bool,
    /// `path` made absolute; filled in when the configuration is initialised.
    pub full_path: String,
}

/// The backend executable, its configuration file and the ports to run it on.
#[derive(Debug, Clone)]
pub struct TorConfig {
    pub path: String,
    pub torrc: String,
    pub data_dirs: TorDataDirsConfig,
    pub start_port: u16,
    pub port_count: u16,
    /// `path` made absolute; filled in when the configuration is initialised.
    pub full_path: String,
    /// `torrc` made absolute; filled in when the configuration is initialised.
    pub torrc_full_path: String,
}

/// The whole configuration.
#[derive(Debug, Clone)]
pub struct AppConfig {
    pub tor: TorConfig,
    pub listen_addr: String,
    pub log: LogConfig,
}

/// Where the configuration file is looked for.
#[derive(Debug, Clone, Copy, PartialEq, Eq, Structural)]
pub enum ConfigLocation {
    /// Beside the executable; `checked` says that the file was seen there.
    NearBinary { checked: bool },
    /// In the directory `configs` of the build's manifest directory.
    ManifestConfigs,
}

/// Chooses the place of the configuration file. The file beside the executable
/// is taken when the caller insists on it, when it exists, or when no manifest
/// directory is known; only in the middle case has it been seen.
pub fn config_location(force_near_binary: bool, near_binary_is_file: bool, manifest_dir: &str) -> (r:
    ConfigLocation)
    ensures
        r == (if force_near_binary {
            ConfigLocation::NearBinary { checked: false }
        } else if near_binary_is_file {
            ConfigLocation::NearBinary { checked: true }
        } else if manifest_dir@.len() == 0 {
            ConfigLocation::NearBinary { checked: false }
        } else {
            ConfigLocation::ManifestConfigs
        }),
{
    if force_near_binary {
        ConfigLocation::NearBinary { checked: false }
    } else if near_binary_is_file {
        ConfigLocation::NearBinary { checked: true }
    } else if manifest_dir.unicode_len() == 0 {
        ConfigLocation::NearBinary { checked: false }
    } else {
        ConfigLocation::ManifestConfigs
    }
}

} // verus!
