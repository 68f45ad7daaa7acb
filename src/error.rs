use vstd::prelude::*;

verus! {

/// Why a configuration operation failed. Each variant but `NotLoaded` carries
/// the text that describes the failure.
#[derive(Debug, Clone, PartialEq, Eq)]
pub enum ConfigError {
    /// The working directory could not be resolved.
    WorkingDir(String),
    /// Creating the directory, writing or reading the file failed.
    Io(String),
    /// The configuration could not be written as JSON text.
    Serialize(String),
    /// The file is not JSON text.
    Parse(String),
    /// The JSON document does not have the configuration's shape; the text is
    /// the key of the offending member.
    Schema(String),
    /// The lock on the loaded configuration could not be taken.
    Lock(String),
    /// No configuration has been loaded yet.
    NotLoaded,
}

/// Message of the no-configuration-loaded error.
pub const NOT_LOADED_MESSAGE: &'static str = "No config loaded";

/// Prefix of the message of a schema error, followed by the member's key.
pub const SCHEMA_MESSAGE_PREFIX: &'static str = "missing or invalid field: ";

/// The human-readable message of an error.
pub open spec fn message_of(e: ConfigError) -> Seq<char> {
    match e {
        ConfigError::WorkingDir(m) => m@,
        ConfigError::Io(m) => m@,
        ConfigError::Serialize(m) => m@,
        ConfigError::Parse(m) => m@,
        ConfigError::Schema(k) => SCHEMA_MESSAGE_PREFIX@ + k@,
        ConfigError::Lock(m) => m@,
        ConfigError::NotLoaded => NOT_LOADED_MESSAGE@,
    }
}

impl ConfigError {
    /// The message that the error is reported with.
    pub fn message(&self) -> (r: String)
        ensures
            r@ == message_of(*self),
    {
        match self {
            ConfigError::WorkingDir(m) => m.clone(),
            ConfigError::Io(m) => m.clone(),
            ConfigError::Serialize(m) => m.clone(),
            ConfigError::Parse(m) => m.clone(),
            ConfigError::Schema(k) => String::from_str(SCHEMA_MESSAGE_PREFIX).concat(k.as_str()),
            ConfigError::Lock(m) => m.clone(),
            ConfigError::NotLoaded => String::from_str(NOT_LOADED_MESSAGE),
        }
    }
}

} // verus!
