//! What can go wrong at startup, each with the text it is reported by.

use vstd::prelude::*;
use vstd::string::StringExecFns;

verus! {

/// What a `TorSpawnError` says, as plain text values.
pub enum SpawnFailure {
    NotFound { path: Seq<char> },
    Other { path: Seq<char>, error: Seq<char> },
}

/// A backend process could not be started.
#[derive(Debug, Clone, PartialEq, Eq)]
pub enum TorSpawnError {
    /// No executable at the configured path.
    NotFound { path: String },
    /// Any other failure of the operating system, with its message.
    Other { path: String, error: String },
}

impl View for TorSpawnError {
    type V = SpawnFailure;

    open spec fn view(&self) -> SpawnFailure {
        match self {
            TorSpawnError::NotFound { path } => SpawnFailure::NotFound { path: path@ },
            TorSpawnError::Other { path, error } => SpawnFailure::Other {
                path: path@,
                error: error@,
            },
        }
    }
}

impl TorSpawnError {
    /// The text of the error.
    pub open spec fn message_text(&self) -> Seq<char> {
        match self {
            TorSpawnError::NotFound { path } => "tor binary not found: '"@ + path@ + "'"@,
            TorSpawnError::Other { path, error } => "other spawn error of '"@ + path@ + "' : '"@
                + error@ + "'"@,
        }
    }

    /// The configured path of the executable that failed to start.
    pub open spec fn executable(&self) -> Seq<char> {
        match self {
            TorSpawnError::NotFound { path } => path@,
            TorSpawnError::Other { path, .. } => path@,
        }
    }

    /// Writes the error as text.
    pub fn message(&self) -> (r: String)
        ensures
            r@ == self.message_text(),
    {
        match self {
            TorSpawnError::NotFound { path } => {
                let mut r = String::from_str("tor binary not found: '");
                r.append(path.as_str());
                r.append("'");
                r
            },
            TorSpawnError::Other { path, error } => {
                let mut r = String::from_str("other spawn error of '");
                r.append(path.as_str());
                r.append("' : '");
                r.append(error.as_str());
                r.append("'");
                r
            },
        }
    }
}

/// What a `ConfigFileError` says, as plain text values.
pub enum ConfigFailure {
    NormalizePath { parameter: Seq<char>, path: Seq<char>, error: Seq<char> },
    EmptyParameter { name: Seq<char>, description: Seq<char> },
}

/// The configuration file holds a value that cannot be used.
#[derive(Debug, Clone, PartialEq, Eq)]
pub enum ConfigFileError {
    /// A path that leaves the root when made absolute.
    NormalizePath { parameter: String, path: String, error: String },
    /// A parameter that must be given and is empty.
    EmptyParameter { name: String, description: String },
}

impl View for ConfigFileError {
    type V = ConfigFailure;

    open spec fn view(&self) -> ConfigFailure {
        match self {
            ConfigFileError::NormalizePath { parameter, path, error } =>
                ConfigFailure::NormalizePath { parameter: parameter@, path: path@, error: error@ },
            ConfigFileError::EmptyParameter { name, description } => ConfigFailure::EmptyParameter {
                name: name@,
                description: description@,
            },
        }
    }
}

impl ConfigFileError {
    /// The text of the error.
    pub open spec fn message_text(&self) -> Seq<char> {
        match self {
            ConfigFileError::NormalizePath { parameter, path, error } =>
                "can't normalize config parameter '"@ + parameter@ + "' = '"@ + path@
                    + "', error: '"@ + error@ + "'"@,
            ConfigFileError::EmptyParameter { name, description } => "parameter '"@ + name@
                + "' ("@ + description@ + ") can not be empty"@,
        }
    }

    /// Writes the error as text.
    pub fn message(&self) -> (r: String)
        ensures
            r@ == self.message_text(),
    {
        match self {
            ConfigFileError::NormalizePath { parameter, path, error } => {
                let mut r = String::from_str("can't normalize config parameter '");
                r.append(parameter.as_str());
                r.append("' = '");
                r.append(path.as_str());
                r.append("', error: '");
                r.append(error.as_str());
                r.append("'");
                r
            },
            ConfigFileError::EmptyParameter { name, description } => {
                let mut r = String::from_str("parameter '");
                r.append(name.as_str());
                r.append("' (");
                r.append(description.as_str());
                r.append(") can not be empty");
                r
            },
        }
    }
}

/// The data directory could not be emptied.
#[derive(Debug, Clone, PartialEq, Eq)]
pub struct ClearDataDirError {
    pub path: String,
    pub error: String,
}

impl ClearDataDirError {
    /// The text of the error.
    pub open spec fn message_text(&self) -> Seq<char> {
        "can't clear tor data directory '"@ + self.path@ + "': '"@ + self.error@ + "'"@
    }

    /// Writes the error as text.
    pub fn message(&self) -> (r: String)
        ensures
            r@ == self.message_text(),
    {
        let mut r = String::from_str("can't clear tor data directory '");
        r.append(self.path.as_str());
        r.append("': '");
        r.append(self.error.as_str());
        r.append("'");
        r
    }
}

/// The data directory could not be created.
#[derive(Debug, Clone, PartialEq, Eq)]
pub struct CreateDataDirError {
    pub path: String,
    pub error: String,
}

impl CreateDataDirError {
    /// The text of the error.
    pub open spec fn message_text(&self) -> Seq<char> {
        "can't create tor data directory '"@ + self.path@ + "': '"@ + self.error@ + "'"@
    }

    /// Writes the error as text.
    pub fn message(&self) -> (r: String)
        ensures
            r@ == self.message_text(),
    {
        let mut r = String::from_str("can't create tor data directory '");
        r.append(self.path.as_str());
        r.append("': '");
        r.append(self.error.as_str());
        r.append("'");
        r
    }
}

/// How a relay session failed.
#[derive(Debug, Clone, PartialEq, Eq)]
pub enum RelayError {
    /// The backend could not be reached; the client's connection was not
    /// read from nor written to.
    BackendConnect { address: String, error: String },
    /// Reading, writing or closing failed while the session was relaying.
    RelayIo { error: String },
}

impl RelayError {
    /// The text of the error.
    pub open spec fn message_text(&self) -> Seq<char> {
        match self {
            RelayError::BackendConnect { address, error } => "can't connect to backend '"@
                + address@ + "': '"@ + error@ + "'"@,
            RelayError::RelayIo { error } => "relay failed: '"@ + error@ + "'"@,
        }
    }

    /// Writes the error as text.
    pub fn message(&self) -> (r: String)
        ensures
            r@ == self.message_text(),
    {
        match self {
            RelayError::BackendConnect { address, error } => {
                let mut r = String::from_str("can't connect to backend '");
                r.append(address.as_str());
                r.append("': '");
                r.append(error.as_str());
                r.append("'");
                r
            },
            RelayError::RelayIo { error } => {
                let mut r = String::from_str("relay failed: '");
                r.append(error.as_str());
                r.append("'");
                r
            },
        }
    }
}

} // verus!
