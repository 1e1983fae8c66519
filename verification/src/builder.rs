//! A builder for creating [`AppConfig`] instances.

use vstd::prelude::*;
use vstd::hash_map::StringHashMap;
use crate::types::{AppConfig, LogFormat, LogLevel};

verus! {

/// A builder for creating `AppConfig` instances.
///
/// The builder provides a fluent API for constructing an `AppConfig` piece
/// by piece; any field left unset falls back to its default at build time.
pub struct AppConfigBuilder {
    environment: Option<String>,
    log_level: Option<LogLevel>,
    log_format: Option<LogFormat>,
    feature_flags: StringHashMap<bool>,
}

impl AppConfigBuilder {
    /// The environment name set so far, if any.
    pub closed spec fn spec_environment(&self) -> Option<String> {
        self.environment
    }

    /// The log level set so far, if any.
    pub closed spec fn spec_log_level(&self) -> Option<LogLevel> {
        self.log_level
    }

    /// The log format set so far, if any.
    pub closed spec fn spec_log_format(&self) -> Option<LogFormat> {
        self.log_format
    }

    /// The feature flags added so far.
    pub closed spec fn spec_feature_flags(&self) -> Map<Seq<char>, bool> {
        self.feature_flags@
    }

    /// Creates a new `AppConfigBuilder` with nothing set.
    pub fn new() -> (r: Self)
        ensures
            r.spec_environment() is None,
            r.spec_log_level() is None,
            r.spec_log_format() is None,
            r.spec_feature_flags() == Map::<Seq<char>, bool>::empty(),
    {
        AppConfigBuilder {
            environment: None,
            log_level: None,
            log_format: None,
            feature_flags: StringHashMap::new(),
        }
    }

    /// Sets the environment for the configuration.
    pub fn environment(self, environment: String) -> (r: Self)
        ensures
            r.spec_environment() == Some(environment),
            r.spec_log_level() == self.spec_log_level(),
            r.spec_log_format() == self.spec_log_format(),
            r.spec_feature_flags() == self.spec_feature_flags(),
    {
        AppConfigBuilder {
            environment: Some(environment),
            log_level: self.log_level,
            log_format: self.log_format,
            feature_flags: self.feature_flags,
        }
    }

    /// Sets the log level for the configuration.
    pub fn log_level(self, log_level: LogLevel) -> (r: Self)
        ensures
            r.spec_environment() == self.spec_environment(),
            r.spec_log_level() == Some(log_level),
            r.spec_log_format() == self.spec_log_format(),
            r.spec_feature_flags() == self.spec_feature_flags(),
    {
        AppConfigBuilder {
            environment: self.environment,
            log_level: Some(log_level),
            log_format: self.log_format,
            feature_flags: self.feature_flags,
        }
    }

    /// Sets the log format for the configuration.
    pub fn log_format(self, log_format: LogFormat) -> (r: Self)
        ensures
            r.spec_environment() == self.spec_environment(),
            r.spec_log_level() == self.spec_log_level(),
            r.spec_log_format() == Some(log_format),
            r.spec_feature_flags() == self.spec_feature_flags(),
    {
        AppConfigBuilder {
            environment: self.environment,
            log_level: self.log_level,
            log_format: Some(log_format),
            feature_flags: self.feature_flags,
        }
    }

    /// Adds a feature flag to the configuration; a later value for the same
    /// key replaces an earlier one.
    pub fn feature_flag(self, key: String, value: bool) -> (r: Self)
        ensures
            r.spec_environment() == self.spec_environment(),
            r.spec_log_level() == self.spec_log_level(),
            r.spec_log_format() == self.spec_log_format(),
            r.spec_feature_flags() == self.spec_feature_flags().insert(key@, value),
    {
        let AppConfigBuilder { environment, log_level, log_format, mut feature_flags } = self;
        feature_flags.insert(key, value);
        AppConfigBuilder { environment, log_level, log_format, feature_flags }
    }

    /// Builds the `AppConfig`.
    ///
    /// Fields that have not been explicitly set fall back to the defaults:
    /// environment `"development"`, log level `Info`, log format `Text`.
    pub fn build(self) -> (r: AppConfig)
        ensures
            r.environment@ == match self.spec_environment() {
                Some(environment) => environment@,
                None => "development"@,
            },
            r.log_level == match self.spec_log_level() {
                Some(log_level) => log_level,
                None => LogLevel::Info,
            },
            r.log_format == match self.spec_log_format() {
                Some(log_format) => log_format,
                None => LogFormat::Text,
            },
            r.feature_flags@ == self.spec_feature_flags(),
    {
        AppConfig {
            environment: match self.environment {
                Some(environment) => environment,
                None => "development".to_owned(),
            },
            log_level: match self.log_level {
                Some(log_level) => log_level,
                None => LogLevel::Info,
            },
            log_format: match self.log_format {
                Some(log_format) => log_format,
                None => LogFormat::Text,
            },
            feature_flags: self.feature_flags,
        }
    }
}

} // verus!
