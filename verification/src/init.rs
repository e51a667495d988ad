//! Checking a configuration and making its paths absolute.

use crate::config::AppConfig;
use crate::error::{ConfigFailure, ConfigFileError};
use crate::path::{
    directory_form, expand, is_rooted, parent, parent_path, relative_base, resolve, tidy_path,
    walk,
};
use vstd::prelude::*;
use vstd::string::StringExecFns;

verus! {

/// A path could not be made absolute.
#[derive(Debug, Clone, PartialEq, Eq)]
pub enum NormalizePathError {
    /// The path leads above the root.
    GoesThruRoot { path: String },
}

/// The text by which a path that leads above the root is reported.
pub open spec fn goes_thru_root_text(path: Seq<char>) -> Seq<char> {
    "path '"@ + path + "' goes thru root ('/')"@
}

impl NormalizePathError {
    /// The text of the error.
    pub open spec fn message_text(&self) -> Seq<char> {
        match self {
            NormalizePathError::GoesThruRoot { path } => goes_thru_root_text(path@),
        }
    }

    /// Writes the error as text.
    pub fn message(&self) -> (r: String)
        ensures
            r@ == self.message_text(),
    {
        match self {
            NormalizePathError::GoesThruRoot { path } => {
                let mut r = String::from_str("path '");
                r.append(path.as_str());
                r.append("' goes thru root ('/')");
                r
            },
        }
    }
}

/// Follows `path` from the directory `relative_to`, segment by segment: `..`
/// goes one directory up, `.` and empty segments stay, every other segment
/// goes down. Fails if the path leads above the root.
pub fn normalize_path(path: String, relative_to: String) -> (r: Result<String, NormalizePathError>)
    requires
        is_rooted(relative_to@),
    ensures
        match resolve(path@, relative_to@) {
            Some(t) => r matches Ok(s) && s@ == t,
            None => r matches Err(NormalizePathError::GoesThruRoot { path: p }) && p@ == path@,
        },
        r matches Ok(s) ==> is_rooted(s@),
{
    match walk(path.as_str(), relative_to, true) {
        Some(res) => Ok(res),
        None => Err(NormalizePathError::GoesThruRoot { path }),
    }
}

/// A rooted path is taken as it is; any other is followed from `relative_to`.
pub fn expand_path(path: String, relative_to: String) -> (r: Result<String, NormalizePathError>)
    requires
        is_rooted(path@) || is_rooted(relative_to@),
    ensures
        match expand(path@, relative_to@) {
            Some(t) => r matches Ok(s) && s@ == t,
            None => r matches Err(NormalizePathError::GoesThruRoot { path: p }) && p@ == path@,
        },
        r matches Ok(s) ==> is_rooted(s@),
{
    if path.as_str().unicode_len() > 0 && path.as_str().get_char(0) == '/' {
        Ok(path)
    } else {
        normalize_path(path, relative_to)
    }
}

/// What a path of the configuration becomes, or the failure to report for the
/// parameter `field`.
pub open spec fn config_path(
    path: Seq<char>,
    field: Seq<char>,
    is_dir: bool,
    relative_to: Seq<char>,
) -> Result<Seq<char>, ConfigFailure> {
    match expand(path, relative_to) {
        Some(t) => Ok(directory_form(t, is_dir)),
        None => Err(
            ConfigFailure::NormalizePath {
                parameter: field,
                path,
                error: goes_thru_root_text(path),
            },
        ),
    }
}

/// Makes the path of the parameter `field` absolute; a directory's path ends
/// in a separator.
pub fn normalize_path_in_config(path: &str, field: &str, is_dir: bool, relative_to: String) -> (r:
    Result<String, ConfigFileError>)
    requires
        is_rooted(path@) || is_rooted(relative_to@),
    ensures
        match config_path(path@, field@, is_dir, relative_to@) {
            Ok(t) => r matches Ok(s) && s@ == t,
            Err(f) => r matches Err(e) && e@ == f,
        },
        r matches Ok(s) ==> is_rooted(s@) && (is_dir ==> s@.last() == '/'),
{
    match expand_path(String::from_str(path), relative_to) {
        Ok(expanded) => {
            let mut text = expanded;
            let len = text.as_str().unicode_len();
            if is_dir && !(len > 0 && text.as_str().get_char(len - 1) == '/') {
                proof {
                    reveal_strlit("/");
                    assert("/"@ =~= seq!['/']);
                }
                text.append("/");
                assert(text@ =~= directory_form(expanded@, is_dir));
            }
            Ok(text)
        },
        Err(e) => Err(
            ConfigFileError::NormalizePath {
                parameter: String::from_str(field),
                path: String::from_str(path),
                error: e.message(),
            },
        ),
    }
}

/// A parameter of the configuration: its name and what it is.
#[derive(Debug, Clone)]
pub struct ConfigParameter {
    pub name: &'static str,
    pub description: &'static str,
}

impl ConfigParameter {
    /// The error that reports this parameter as empty.
    pub fn empty_paramter_error(&self) -> (e: ConfigFileError)
        ensures
            e@ == (ConfigFailure::EmptyParameter {
                name: self.name@,
                description: self.description@,
            }),
    {
        ConfigFileError::EmptyParameter {
            name: String::from_str(self.name),
            description: String::from_str(self.description),
        }
    }
}

/// The parameters that must not be empty.
#[derive(Debug, Clone)]
pub struct ConfigParameters {
    tor: ConfigParameter,
    torrc: ConfigParameter,
    data_dirs: ConfigParameter,
}

impl ConfigParameters {
    /// The three parameters with their names and descriptions.
    pub fn new() -> (p: ConfigParameters)
        ensures
            p.tor_parameter().name@ == "tor"@,
            p.tor_parameter().description@ == "path to tor binary"@,
            p.torrc_parameter().name@ == "torrc"@,
            p.torrc_parameter().description@ == "path to torrc (tor config) file"@,
            p.data_dirs_parameter().name@ == "data_dirs"@,
            p.data_dirs_parameter().description@ == "path to tor work data root directory"@,
    {
        ConfigParameters {
            tor: ConfigParameter { name: "tor", description: "path to tor binary" },
            torrc: ConfigParameter {
                name: "torrc",
                description: "path to torrc (tor config) file",
            },
            data_dirs: ConfigParameter {
                name: "data_dirs",
                description: "path to tor work data root directory",
            },
        }
    }

    /// The path of the backend executable.
    pub fn tor(&self) -> (r: &ConfigParameter)
        ensures
            *r == self.tor_parameter(),
    {
        &self.tor
    }

    /// The path of the backend's configuration file.
    pub fn torrc(&self) -> (r: &ConfigParameter)
        ensures
            *r == self.torrc_parameter(),
    {
        &self.torrc
    }

    /// The base path of the backends' data directories.
    pub fn data_dirs(&self) -> (r: &ConfigParameter)
        ensures
            *r == self.data_dirs_parameter(),
    {
        &self.data_dirs
    }

    /// The parameter `tor`.
    pub closed spec fn tor_parameter(&self) -> ConfigParameter {
        self.tor
    }

    /// The parameter `torrc`.
    pub closed spec fn torrc_parameter(&self) -> ConfigParameter {
        self.torrc
    }

    /// The parameter `data_dirs`.
    pub closed spec fn data_dirs_parameter(&self) -> ConfigParameter {
        self.data_dirs
    }
}

/// The first parameter that is empty, in the order executable, configuration
/// file, data directories.
pub open spec fn missing_parameter(config: &AppConfig) -> Option<ConfigFailure> {
    if config.tor.path@.len() == 0 {
        Some(ConfigFailure::EmptyParameter { name: "tor"@, description: "path to tor binary"@ })
    } else if config.tor.torrc@.len() == 0 {
        Some(
            ConfigFailure::EmptyParameter {
                name: "torrc"@,
                description: "path to torrc (tor config) file"@,
            },
        )
    } else if config.tor.data_dirs.path@.len() == 0 {
        Some(
            ConfigFailure::EmptyParameter {
                name: "data_dirs"@,
                description: "path to tor work data root directory"@,
            },
        )
    } else {
        None
    }
}

/// Accepts a configuration in which the three paths are given.
pub fn check_config(config: &AppConfig) -> (r: Result<(), ConfigFileError>)
    ensures
        match missing_parameter(config) {
            None => r is Ok,
            Some(f) => r matches Err(e) && e@ == f,
        },
{
    let parameters = ConfigParameters::new();
    if config.tor.path.as_str().unicode_len() == 0 {
        return Err(parameters.tor().empty_paramter_error());
    }
    if config.tor.torrc.as_str().unicode_len() == 0 {
        return Err(parameters.torrc().empty_paramter_error());
    }
    if config.tor.data_dirs.path.as_str().unicode_len() == 0 {
        return Err(parameters.data_dirs().empty_paramter_error());
    }
    Ok(())
}

/// What initialising a configuration gives: the three absolute paths as they
/// stand afterwards, and the failure that ended it, if any.
pub struct Initialized {
    pub full_path: Seq<char>,
    pub torrc_full_path: Seq<char>,
    pub data_dirs_full_path: Seq<char>,
    pub failure: Option<ConfigFailure>,
}

/// Initialising checks that the three paths are given and then makes them
/// absolute in the order executable, configuration file, data directories.
/// The first failure ends it; what was made absolute before stays.
pub open spec fn initialized(config: &AppConfig, relative_to: Seq<char>) -> Initialized {
    let untouched = Initialized {
        full_path: config.tor.full_path@,
        torrc_full_path: config.tor.torrc_full_path@,
        data_dirs_full_path: config.tor.data_dirs.full_path@,
        failure: None,
    };
    match missing_parameter(config) {
        Some(f) => Initialized { failure: Some(f), ..untouched },
        None => match config_path(config.tor.path@, "tor.path"@, false, relative_to) {
            Err(f) => Initialized { failure: Some(f), ..untouched },
            Ok(full_path) => match config_path(
                config.tor.torrc@,
                "tor.torrc"@,
                false,
                relative_to,
            ) {
                Err(f) => Initialized { full_path, failure: Some(f), ..untouched },
                Ok(torrc_full_path) => match config_path(
                    config.tor.data_dirs.path@,
                    "data_dirs.path"@,
                    true,
                    relative_to,
                ) {
                    Err(f) => Initialized {
                        full_path,
                        torrc_full_path,
                        failure: Some(f),
                        ..untouched
                    },
                    Ok(data_dirs_full_path) => Initialized {
                        full_path,
                        torrc_full_path,
                        data_dirs_full_path,
                        failure: None,
                    },
                },
            },
        },
    }
}

/// Everything but the three absolute paths is the same in both.
pub open spec fn same_settings(a: &AppConfig, b: &AppConfig) -> bool {
    &&& a.tor.path == b.tor.path
    &&& a.tor.torrc == b.tor.torrc
    &&& a.tor.data_dirs.path == b.tor.data_dirs.path
    &&& a.tor.data_dirs.clear == b.tor.data_dirs.clear
    &&& a.tor.start_port == b.tor.start_port
    &&& a.tor.port_count == b.tor.port_count
    &&& a.listen_addr == b.listen_addr
    &&& a.log == b.log
}

/// Checks the configuration and fills in its absolute paths.
pub fn init_config(config: &mut AppConfig, relative_to: String) -> (r: Result<
    (),
    ConfigFileError,
>)
    requires
        is_rooted(relative_to@) || missing_parameter(old(config)) is Some || (is_rooted(
            old(config).tor.path@,
        ) && is_rooted(old(config).tor.torrc@) && is_rooted(old(config).tor.data_dirs.path@)),
    ensures
        same_settings(final(config), old(config)),
        final(config).tor.full_path@ == initialized(old(config), relative_to@).full_path,
        final(config).tor.torrc_full_path@ == initialized(
            old(config),
            relative_to@,
        ).torrc_full_path,
        final(config).tor.data_dirs.full_path@ == initialized(
            old(config),
            relative_to@,
        ).data_dirs_full_path,
        match initialized(old(config), relative_to@).failure {
            None => r is Ok,
            Some(f) => r matches Err(e) && e@ == f,
        },
        r is Ok ==> {
            &&& is_rooted(final(config).tor.full_path@)
            &&& is_rooted(final(config).tor.torrc_full_path@)
            &&& is_rooted(final(config).tor.data_dirs.full_path@)
            &&& final(config).tor.data_dirs.full_path@.last() == '/'
        },
{
    match check_config(config) {
        Err(e) => {
            return Err(e);
        },
        Ok(_) => {},
    }
    match normalize_path_in_config(config.tor.path.as_str(), "tor.path", false, relative_to.clone()) {
        Err(e) => {
            return Err(e);
        },
        Ok(full_path) => {
            config.tor.full_path = full_path;
        },
    }
    match normalize_path_in_config(
        config.tor.torrc.as_str(),
        "tor.torrc",
        false,
        relative_to.clone(),
    ) {
        Err(e) => {
            return Err(e);
        },
        Ok(torrc_full_path) => {
            config.tor.torrc_full_path = torrc_full_path;
        },
    }
    match normalize_path_in_config(
        config.tor.data_dirs.path.as_str(),
        "data_dirs.path",
        true,
        relative_to.clone(),
    ) {
        Err(e) => {
            return Err(e);
        },
        Ok(full_path) => {
            config.tor.data_dirs.full_path = full_path;
        },
    }
    Ok(())
}

/// Finds the directory that the paths of the configuration start from, given
/// where the configuration file and the executable lie. Both paths must have
/// a directory above them.
pub fn get_relative_to(config_file_path: &str, exe_path: &str) -> (r: String)
    requires
        parent(config_file_path@) is Some,
        parent(exe_path@) is Some,
    ensures
        r@ == relative_base(config_file_path@, exe_path@),
{
    match (parent_path(config_file_path), parent_path(exe_path)) {
        (Some(config_dir), Some(exe_dir)) => {
            if tidy_path(config_dir.as_str()) == tidy_path(exe_dir.as_str()) {
                exe_dir
            } else {
                match parent_path(config_dir.as_str()) {
                    Some(above) => above,
                    None => config_dir,
                }
            }
        },
        _ => String::from_str(config_file_path),
    }
}

} // verus!
