use yetii::config::connection_config::ConnectionConfig;
use yetii::config::endpoint_config::RequestConfig;
use yetii::config::execution_config::ExecutionConfig;
use yetii::config::global_settings::{ErrorHandling, GlobalSettings, Logging, SecuritySettings};
use yetii::config::logging::LogRotation;
use yetii::config::transform_config::TransformConfig;
use yetii::config::utils::{
    default_environment, default_error_action, default_execution_mode, default_false,
    default_log_format, default_log_level, default_log_output, default_max_connections,
    default_max_retries, default_request_format, default_retry_attempts, default_timeout_seconds,
    default_timezone, default_true, default_version,
};

#[test]
fn each_default_has_its_documented_value() {
    assert_eq!(default_version(), Some("1.0.0".to_string()));
    assert_eq!(default_environment(), "development");
    assert_eq!(default_max_connections(), Some(10));
    assert_eq!(default_timeout_seconds(), Some(30));
    assert_eq!(default_retry_attempts(), Some(3));
    assert_eq!(default_error_action(), "stop");
    assert_eq!(default_max_retries(), 3);
    assert_eq!(default_timezone(), "UTC");
    assert!(default_true());
    assert!(!default_false());
    assert_eq!(default_log_level(), "info");
    assert_eq!(default_log_format(), "json");
    assert_eq!(default_log_output(), "console");
    assert_eq!(default_request_format(), "json");
    assert_eq!(default_execution_mode(), "sequential");
}

#[test]
fn each_part_has_its_default() {
    assert_eq!(
        ConnectionConfig::default(),
        ConnectionConfig {
            max_connections: Some(10),
            timeout_seconds: Some(30),
            retry_attempts: Some(3)
        }
    );
    assert_eq!(
        ErrorHandling::default(),
        ErrorHandling {
            on_query_error: "stop".to_string(),
            on_transform_error: "stop".to_string(),
            on_endpoint_error: "stop".to_string(),
            max_retries: 3,
        }
    );
    assert_eq!(
        Logging::default(),
        Logging {
            level: "info".to_string(),
            format: "json".to_string(),
            output: "console".to_string(),
            file_path: None,
            rotation: None,
        }
    );
    assert_eq!(
        SecuritySettings::default(),
        SecuritySettings { encrypt_config: false, validate_ssl: false, timeout_seconds: Some(30) }
    );
    assert_eq!(
        GlobalSettings::default(),
        GlobalSettings {
            environment: "development".to_string(),
            error_handling: ErrorHandling::default(),
            logging: Logging::default(),
            security: SecuritySettings::default(),
        }
    );
    assert_eq!(
        ExecutionConfig::default(),
        ExecutionConfig {
            mode: "sequential".to_string(),
            global_timeout_minutes: Some(60),
            state_management: None,
            scheduler: None,
        }
    );
    assert_eq!(
        RequestConfig::default(),
        RequestConfig {
            format: "json".to_string(),
            batch_size: Some(100),
            timeout_seconds: Some(30),
            retry_attempts: Some(3),
            retry_delay_seconds: Some(1),
            retry_backoff: Some("exponential".to_string()),
        }
    );
    assert_eq!(
        TransformConfig::default(),
        TransformConfig {
            enabled: true,
            mappings: None,
            group_by: None,
            filters: None,
            conversions: None
        }
    );
    assert_eq!(LogRotation::default(), LogRotation { max_size_mb: 0, max_files: 0 });
}

#[test]
fn the_defaults_keep_the_rules() {
    assert!(ConnectionConfig::default().validate().is_ok());
    assert!(ErrorHandling::default().validate().is_ok());
    assert!(Logging::default().validate().is_ok());
    assert!(SecuritySettings::default().validate().is_ok());
    assert!(GlobalSettings::default().validate().is_ok());
    assert!(ExecutionConfig::default().validate().is_ok());
    assert!(TransformConfig::default().validate().is_ok());
}
