//! Error types of the configuration and logging subsystems.
//!
//! The operations that can fail (reading a file, decoding a document,
//! initializing a subscriber) run outside this crate, so each payload
//! carries the failure rendered as text rather than the foreign error value.

use vstd::prelude::*;

verus! {

/// An error of the configuration subsystem.
#[derive(Debug)]
pub enum ConfigError {
    /// Reading a configuration source failed.
    Io(String),
    /// A configuration document could not be decoded.
    Toml(String),
    /// A loaded configuration broke a validation rule; the payload names the
    /// offending field.
    ValidationError { field: String },
    /// A named configuration source was not found.
    NotFound(String),
    /// An unexpected failure.
    Unexpected(String),
}

/// An error of the logging infrastructure.
#[derive(Debug)]
pub enum LoggingError {
    /// The logging subscriber failed to initialize.
    Initialization(String),
    /// An invalid log level was configured.
    InvalidLogLevel(String),
    /// A file appender could not be set up.
    FileAppender(String),
}

} // verus!
