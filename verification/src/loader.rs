//! The pure side of configuration loading: the partial configuration a
//! source yields, layered merging, validation, and the fall-back to
//! defaults. Reading files and decoding documents happen outside this
//! crate and hand their results in as plain values.

use vstd::prelude::*;
use vstd::hash_map::StringHashMap;
use crate::errors::ConfigError;
use crate::types::{AppConfig, LogFormat, LogLevel};

verus! {

/// The partial configuration one source yields: every field optional, the
/// flag table possibly empty.
pub struct LoadedConfig {
    pub environment: Option<String>,
    pub log_level: Option<LogLevel>,
    pub log_format: Option<LogFormat>,
    pub feature_flags: StringHashMap<bool>,
}

impl LoadedConfig {
    /// Creates a partial configuration with nothing set.
    pub fn new() -> (r: Self)
        ensures
            r.environment is None,
            r.log_level is None,
            r.log_format is None,
            r.feature_flags@ == Map::<Seq<char>, bool>::empty(),
    {
        LoadedConfig {
            environment: None,
            log_level: None,
            log_format: None,
            feature_flags: StringHashMap::new(),
        }
    }

    /// Merges a later-loaded configuration over this one: a field set in
    /// `overlay` overrides the field here, and the flag tables are combined
    /// with `overlay`'s value winning on a shared name.
    pub fn merge(self, overlay: LoadedConfig) -> (r: LoadedConfig)
        ensures
            r.environment == (if overlay.environment is Some {
                overlay.environment
            } else {
                self.environment
            }),
            r.log_level == (if overlay.log_level is Some {
                overlay.log_level
            } else {
                self.log_level
            }),
            r.log_format == (if overlay.log_format is Some {
                overlay.log_format
            } else {
                self.log_format
            }),
            r.feature_flags@ == self.feature_flags@.union_prefer_right(overlay.feature_flags@),
    {
        let LoadedConfig { environment, log_level, log_format, mut feature_flags } = self;
        let LoadedConfig {
            environment: overlay_environment,
            log_level: overlay_log_level,
            log_format: overlay_log_format,
            feature_flags: overlay_feature_flags,
        } = overlay;
        feature_flags.union_prefer_right(overlay_feature_flags);
        LoadedConfig {
            environment: if overlay_environment.is_some() {
                overlay_environment
            } else {
                environment
            },
            log_level: if overlay_log_level.is_some() {
                overlay_log_level
            } else {
                log_level
            },
            log_format: if overlay_log_format.is_some() {
                overlay_log_format
            } else {
                log_format
            },
            feature_flags,
        }
    }

    /// Finishes loading: fields that no source set fall back to the
    /// defaults — environment `"development"`, log level `Info`, log format
    /// `Text` — and the flag table is kept as merged.
    pub fn into_config(self) -> (r: AppConfig)
        ensures
            r.environment@ == match self.environment {
                Some(environment) => environment@,
                None => "development"@,
            },
            r.log_level == match self.log_level {
                Some(log_level) => log_level,
                None => LogLevel::Info,
            },
            r.log_format == match self.log_format {
                Some(log_format) => log_format,
                None => LogFormat::Text,
            },
            r.feature_flags@ == self.feature_flags@,
    {
        AppConfig {
            environment: match self.environment {
                Some(environment) => environment,
                None => "development".to_owned(),
            },
            log_level: match self.log_level {
                Some(log_level) => log_level,
                None => LogLevel::Info,
            },
            log_format: match self.log_format {
                Some(log_format) => log_format,
                None => LogFormat::Text,
            },
            feature_flags: self.feature_flags,
        }
    }
}

/// A configuration provider that loads settings from a TOML file.
///
/// The provider carries the path and the validation rules; reading the file
/// and decoding the document happen outside this crate and yield a
/// [`LoadedConfig`].
pub struct FileConfigurationProvider {
    path: String,
}

impl FileConfigurationProvider {
    /// The path the provider reads from.
    pub closed spec fn spec_path(&self) -> Seq<char> {
        self.path@
    }

    /// Creates a new `FileConfigurationProvider`.
    ///
    /// # Parameters
    /// - `path`: The path to the configuration file.
    pub fn new(path: String) -> (r: Self)
        ensures
            r.spec_path() == path@,
    {
        FileConfigurationProvider { path }
    }

    /// Returns the path of the configuration file.
    pub fn path(&self) -> (r: &str)
        ensures
            r@ == self.spec_path(),
    {
        self.path.as_str()
    }

    /// Validates a loaded configuration: an environment name that is set but
    /// empty is rejected, and nothing else is.
    pub fn validate(&self, config: &LoadedConfig) -> (r: Result<(), ConfigError>)
        ensures
            r is Ok <==> !(config.environment matches Some(environment)
                && environment@.len() == 0),
            r is Err ==> (r matches Err(ConfigError::ValidationError { field })
                && field@ == "environment"@),
    {
        match &config.environment {
            Some(environment) => {
                if environment.as_str().is_empty() {
                    Err(ConfigError::ValidationError { field: "environment".to_owned() })
                } else {
                    Ok(())
                }
            },
            None => Ok(()),
        }
    }
}

} // verus!
