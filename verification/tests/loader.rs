use feature_flags::errors::ConfigError;
use feature_flags::loader::{FileConfigurationProvider, LoadedConfig};
use feature_flags::types::{LogFormat, LogLevel};

#[test]
fn test_layered_override() {
    let mut base = LoadedConfig::new();
    base.environment = Some("development".to_string());
    base.log_level = Some(LogLevel::Info);

    let mut overlay = LoadedConfig::new();
    overlay.environment = Some("production".to_string());
    overlay.log_format = Some(LogFormat::Json);

    let config = base.merge(overlay);

    assert_eq!(config.environment, Some("production".to_string())); // Overridden
    assert_eq!(config.log_level, Some(LogLevel::Info)); // From base
    assert_eq!(config.log_format, Some(LogFormat::Json)); // From overlay
}

#[test]
fn test_feature_flag_merging() {
    let mut base = LoadedConfig::new();
    base.feature_flags.insert("one".to_string(), true);
    base.feature_flags.insert("two".to_string(), false);

    let mut overlay = LoadedConfig::new();
    overlay.feature_flags.insert("two".to_string(), true);
    overlay.feature_flags.insert("three".to_string(), true);

    let config = base.merge(overlay);

    assert_eq!(config.feature_flags.get("one"), Some(&true));
    assert_eq!(config.feature_flags.get("two"), Some(&true));
    assert_eq!(config.feature_flags.get("three"), Some(&true));
    assert_eq!(config.feature_flags.len(), 3);
}

#[test]
fn into_config_falls_back_to_defaults() {
    let config = LoadedConfig::new().into_config();
    assert_eq!(config.environment, "development");
    assert_eq!(config.log_level, LogLevel::Info);
    assert_eq!(config.log_format, LogFormat::Text);
    assert!(config.feature_flags.is_empty());

    let mut loaded = LoadedConfig::new();
    loaded.environment = Some("staging".to_string());
    loaded.log_format = Some(LogFormat::Json);
    loaded.feature_flags.insert("new_ui".to_string(), true);
    let config = loaded.into_config();
    assert_eq!(config.environment, "staging");
    assert_eq!(config.log_level, LogLevel::Info);
    assert_eq!(config.log_format, LogFormat::Json);
    assert_eq!(config.feature_flags.get("new_ui"), Some(&true));
}

#[test]
fn validate_rejects_an_empty_environment() {
    let provider = FileConfigurationProvider::new("app.toml".to_string());

    let mut invalid = LoadedConfig::new();
    invalid.environment = Some("".to_string());
    let result = provider.validate(&invalid);
    assert!(matches!(
        result,
        Err(ConfigError::ValidationError { field }) if field == "environment"
    ));
}

#[test]
fn validate_accepts_set_or_absent_environments() {
    let provider = FileConfigurationProvider::new("app.toml".to_string());

    let mut named = LoadedConfig::new();
    named.environment = Some("production".to_string());
    assert!(provider.validate(&named).is_ok());

    let absent = LoadedConfig::new();
    assert!(provider.validate(&absent).is_ok());
}

#[test]
fn provider_keeps_its_path() {
    let provider = FileConfigurationProvider::new("conf/app.toml".to_string());
    assert_eq!(provider.path(), "conf/app.toml");
}
