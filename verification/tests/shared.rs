use yetii::commands::initialize::create_default_config;
use yetii::config::shared::SharedConfig;
use yetii::config::watch::FileEvent;
use yetii::config::yetii::YetiiConfig;
use yetii::config::ConfigError;

/// A document whose parts all carry the same tag.
fn tagged(tag: u32) -> YetiiConfig {
    let mut doc = create_default_config(&format!("doc-{}", tag));
    doc.databases.host = format!("host-{}", tag);
    doc.global_settings.logging.output = format!("output-{}", tag);
    doc.execution.global_timeout_minutes = Some(tag + 1);
    doc.queries[0].description = format!("query-{}", tag);
    doc
}

fn tag_of(doc: &YetiiConfig) -> u32 {
    let tag = doc.execution.global_timeout_minutes.expect("a tagged document") - 1;
    assert_eq!(doc.name.as_deref(), Some(format!("doc-{}", tag).as_str()));
    assert_eq!(doc.databases.host, format!("host-{}", tag));
    assert_eq!(doc.global_settings.logging.output, format!("output-{}", tag));
    assert_eq!(doc.queries[0].description, format!("query-{}", tag));
    tag
}

#[test]
fn a_shared_holder_starts_empty() {
    let shared = SharedConfig::new();
    assert!(!shared.is_initialized());
    assert!(matches!(shared.current(), Err(ConfigError::NotInitialized)));
    assert!(matches!(shared.reload(tagged(1)), Err(ConfigError::NotInitialized)));
    assert!(!shared.is_initialized());
}

#[test]
fn a_shared_holder_is_loaded_once_and_reloaded_often() {
    let shared = SharedConfig::new();
    assert!(shared.load_once(tagged(1)).is_ok());
    assert!(shared.is_initialized());
    assert_eq!(shared.current().expect("installed"), tagged(1));
    assert!(matches!(shared.load_once(tagged(2)), Err(ConfigError::ConfigAlreadySet)));
    assert_eq!(shared.current().expect("installed"), tagged(1));
    assert!(shared.reload(tagged(3)).is_ok());
    assert_eq!(shared.current().expect("installed"), tagged(3));
    assert!(shared.reload(tagged(3)).is_ok());
    assert_eq!(shared.current().expect("installed"), tagged(3));
}

#[test]
fn a_shared_holder_refuses_what_breaks_a_rule_and_keeps_what_it_has() {
    let shared = SharedConfig::new();
    let mut bad = tagged(1);
    bad.databases.port = 0;
    assert!(matches!(shared.load_once(bad), Err(ConfigError::OutOfRange { .. })));
    assert!(!shared.is_initialized());
    shared.load_once(tagged(2)).expect("installed");
    let mut bad = tagged(3);
    bad.global_settings.logging.format = "xml".to_string();
    match shared.reload(bad) {
        Err(ConfigError::InvalidValue { field, value }) => {
            assert_eq!(field, "global_settings.logging.format");
            assert_eq!(value, "xml");
        }
        other => panic!("unexpected outcome: {:?}", other),
    }
    assert_eq!(shared.current().expect("installed"), tagged(2));
}

#[test]
fn a_copy_from_a_shared_holder_is_the_readers_own() {
    let shared = SharedConfig::new();
    shared.load_once(tagged(1)).expect("installed");
    let snapshot = shared.current().expect("installed");
    shared.reload(tagged(2)).expect("reloaded");
    assert_eq!(snapshot, tagged(1));
    assert_eq!(shared.current().expect("installed"), tagged(2));
}

#[test]
fn a_snapshot_is_a_holder_of_the_readers_own() {
    let shared = SharedConfig::new();
    assert!(!shared.snapshot().is_initialized());
    shared.load_once(tagged(1)).expect("installed");
    let mut snapshot = shared.snapshot();
    assert_eq!(snapshot.current().expect("installed"), &tagged(1));
    snapshot.replace(tagged(2)).expect("replaced");
    assert_eq!(shared.current().expect("installed"), tagged(1));
    shared.reload(tagged(3)).expect("reloaded");
    assert_eq!(snapshot.current().expect("installed"), &tagged(2));
}

#[test]
fn every_copy_from_a_shared_holder_is_one_whole_document() {
    let shared = SharedConfig::new();
    shared.load_once(tagged(0)).expect("installed");
    for tag in 1..50 {
        assert_eq!(tag_of(&shared.current().expect("installed")), tag - 1);
        shared.reload(tagged(tag)).expect("reloaded");
        let doc = shared.current().expect("installed");
        assert_eq!(tag_of(&doc), tag);
        assert!(doc.validate().is_ok());
    }
}

#[test]
fn only_a_modification_triggers_a_reload() {
    assert!(FileEvent::Modify.triggers_reload());
    for event in [
        FileEvent::Any,
        FileEvent::Access,
        FileEvent::Create,
        FileEvent::Remove,
        FileEvent::Other,
    ] {
        assert!(!event.triggers_reload(), "event {:?}", event);
    }
}
