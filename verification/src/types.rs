//! Core configuration value types: log levels, log formats, and the
//! application configuration record.

use vstd::prelude::*;
use vstd::hash_map::StringHashMap;

verus! {

/// The severity threshold a logging subscriber is configured with.
#[derive(Debug, Clone, Copy, PartialEq, Eq, Structural)]
pub enum LogLevel {
    Debug,
    Info,
    Warn,
    Error,
}

impl LogLevel {
    /// The lower-case name of the level, as it appears in configuration
    /// files and filter directives.
    pub open spec fn spec_name(&self) -> Seq<char> {
        match self {
            LogLevel::Debug => "debug"@,
            LogLevel::Info => "info"@,
            LogLevel::Warn => "warn"@,
            LogLevel::Error => "error"@,
        }
    }

    /// Returns the lower-case name of the level.
    pub fn as_str(&self) -> (r: &'static str)
        ensures
            r@ == self.spec_name(),
    {
        match self {
            LogLevel::Debug => "debug",
            LogLevel::Info => "info",
            LogLevel::Warn => "warn",
            LogLevel::Error => "error",
        }
    }
}

/// The shape a logging subscriber renders events in.
#[derive(Debug, Clone, Copy, PartialEq, Eq, Structural)]
pub enum LogFormat {
    Text,
    Json,
}

/// The application configuration: an environment name, logging settings, and
/// a table of simple on/off feature flags.
pub struct AppConfig {
    pub environment: String,
    pub log_level: LogLevel,
    pub log_format: LogFormat,
    pub feature_flags: StringHashMap<bool>,
}

impl Default for AppConfig {
    /// The development defaults: environment `"development"`, log level
    /// `Info`, log format `Text`, and no feature flags.
    fn default() -> (r: Self)
        ensures
            r.environment@ == "development"@,
            r.log_level == LogLevel::Info,
            r.log_format == LogFormat::Text,
            r.feature_flags@ == Map::<Seq<char>, bool>::empty(),
    {
        AppConfig {
            environment: "development".to_owned(),
            log_level: LogLevel::Info,
            log_format: LogFormat::Text,
            feature_flags: StringHashMap::new(),
        }
    }
}

} // verus!
