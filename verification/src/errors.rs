//! The error taxonomy shared by the connection registry, the strategies and
//! the task pipeline.

use vstd::prelude::*;

verus! {

/// Every recoverable failure of the core falls into one of these kinds; the
/// payload is the human-readable message.
#[derive(Debug)]
pub enum MigrationError {
    /// Malformed or missing required connection fields.
    ConfigError(String),
    /// An unknown connection or task id was referenced.
    ConnectionNotFound(String),
    /// The underlying backend failed to open or to answer; wraps the driver
    /// message reported by the caller.
    BackendError(String),
    /// A lifecycle operation was attempted from a state the transition table
    /// disallows; carries the name of the current state.
    InvalidTransition(String),
    /// A task or config could not be converted to an external representation.
    SerializationError(String),
}

impl MigrationError {
    /// The message carried by the error, whatever its kind.
    pub open spec fn spec_message(&self) -> Seq<char> {
        match self {
            MigrationError::ConfigError(m) => m@,
            MigrationError::ConnectionNotFound(m) => m@,
            MigrationError::BackendError(m) => m@,
            MigrationError::InvalidTransition(m) => m@,
            MigrationError::SerializationError(m) => m@,
        }
    }

    /// The message carried by the error, as text.
    pub fn message(&self) -> (r: &str)
        ensures
            r@ == self.spec_message(),
    {
        match self {
            MigrationError::ConfigError(m) => m.as_str(),
            MigrationError::ConnectionNotFound(m) => m.as_str(),
            MigrationError::BackendError(m) => m.as_str(),
            MigrationError::InvalidTransition(m) => m.as_str(),
            MigrationError::SerializationError(m) => m.as_str(),
        }
    }
}

impl Clone for MigrationError {
    fn clone(&self) -> (r: Self)
        ensures
            r == *self,
    {
        match self {
            MigrationError::ConfigError(m) => MigrationError::ConfigError(m.clone()),
            MigrationError::ConnectionNotFound(m) => MigrationError::ConnectionNotFound(m.clone()),
            MigrationError::BackendError(m) => MigrationError::BackendError(m.clone()),
            MigrationError::InvalidTransition(m) => MigrationError::InvalidTransition(m.clone()),
            MigrationError::SerializationError(m) => MigrationError::SerializationError(m.clone()),
        }
    }
}

} // verus!
