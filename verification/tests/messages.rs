use yetii::config::ConfigError;

fn io_error() -> std::io::Error {
    std::io::Error::new(std::io::ErrorKind::NotFound, "no such document")
}

fn yaml_error() -> serde_yaml::Error {
    match serde_yaml::from_str::<serde_yaml::Value>("key: [unclosed") {
        Err(e) => e,
        Ok(value) => panic!("the text should not parse, but gave {:?}", value),
    }
}

#[test]
fn each_error_has_its_words() {
    let e = ConfigError::InvalidValue { field: "logging.format".to_string(), value: "xml".to_string() };
    assert_eq!(e.message(), "Invalid value for logging.format: xml");
    let e = ConfigError::OutOfRange { field: "database.port".to_string(), value: 70000 };
    assert_eq!(e.message(), "Value out of range for database.port: 70000");
    let e = ConfigError::OutOfRange { field: "database.port".to_string(), value: 0 };
    assert_eq!(e.message(), "Value out of range for database.port: 0");
    let e = ConfigError::InvalidSchedule("* *".to_string());
    assert_eq!(e.message(), "Invalid schedule format: * *");
    let e = ConfigError::MissingRequiredField("queries[0].name".to_string());
    assert_eq!(e.message(), "Missing required field: queries[0].name");
    assert_eq!(
        ConfigError::NotInitialized.message(),
        "Configuration not initialized. Call load_config_once() first"
    );
    assert_eq!(ConfigError::LockPoisoned.message(), "Configuration lock is poisoned");
    assert_eq!(
        ConfigError::ConfigAlreadySet.message(),
        "Configuration has already been initialized"
    );
}

#[test]
fn a_foreign_error_is_worded_by_itself_after_the_heading() {
    let e = ConfigError::IoError(io_error());
    assert_eq!(e.message(), format!("IO error: {}", io_error()));
    let e = ConfigError::SerializationError(yaml_error());
    assert_eq!(e.message(), format!("Serialization error: {}", yaml_error()));
    assert!(e.message().len() > "Serialization error: ".len());
}

#[test]
fn foreign_errors_are_classified() {
    assert!(matches!(ConfigError::from(io_error()), ConfigError::IoError(_)));
    assert!(matches!(ConfigError::from(yaml_error()), ConfigError::SerializationError(_)));
    let classified: ConfigError = io_error().into();
    match classified {
        ConfigError::IoError(inner) => assert_eq!(inner.kind(), std::io::ErrorKind::NotFound),
        other => panic!("unexpected class: {:?}", other),
    }
}

#[test]
fn a_scope_goes_in_front_of_the_field() {
    let e = ConfigError::MissingRequiredField("name".to_string()).within("database");
    assert!(matches!(e, ConfigError::MissingRequiredField(ref f) if f == "database.name"));
    let e = ConfigError::InvalidValue { field: "format".to_string(), value: "xml".to_string() }
        .within("logging")
        .within("global_settings");
    match e {
        ConfigError::InvalidValue { field, value } => {
            assert_eq!(field, "global_settings.logging.format");
            assert_eq!(value, "xml");
        }
        other => panic!("unexpected error: {:?}", other),
    }
    let e = ConfigError::OutOfRange { field: "port".to_string(), value: 0 }.within("database");
    assert!(matches!(e, ConfigError::OutOfRange { ref field, value: 0 } if field == "database.port"));
}

#[test]
fn an_error_without_field_is_left_as_it_is() {
    assert!(matches!(
        ConfigError::InvalidSchedule("* *".to_string()).within("queries[0]"),
        ConfigError::InvalidSchedule(ref cron) if cron == "* *"
    ));
    assert!(matches!(ConfigError::NotInitialized.within("x"), ConfigError::NotInitialized));
    assert!(matches!(ConfigError::LockPoisoned.within("x"), ConfigError::LockPoisoned));
    assert!(matches!(ConfigError::ConfigAlreadySet.within("x"), ConfigError::ConfigAlreadySet));
    assert!(matches!(ConfigError::IoError(io_error()).within("x"), ConfigError::IoError(_)));
    assert!(matches!(
        ConfigError::SerializationError(yaml_error()).within("x"),
        ConfigError::SerializationError(_)
    ));
}
