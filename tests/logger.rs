use flwrs_plugin::logger::{level_verbosity, PluginLogger};
use flwrs_plugin::message::{LogLevel, PluginType};
use flwrs_plugin::version::Version;

#[test]
fn default_logger_identity() {
    let l = PluginLogger::default();
    assert_eq!(l.plugin_id, "<no-ID>");
    assert_eq!(l.plugin_type, PluginType::Undefined);
    assert_eq!(l.level, LogLevel::Warn);
}

#[test]
fn level_filter() {
    let mut l = PluginLogger::new();
    l.initialize("p".to_string(), PluginType::Sink, LogLevel::Info);
    assert!(l.enabled(LogLevel::Error));
    assert!(l.enabled(LogLevel::Warn));
    assert!(l.enabled(LogLevel::Info));
    assert!(!l.enabled(LogLevel::Debug));
    assert!(!l.enabled(LogLevel::Trace));
    assert_eq!(level_verbosity(LogLevel::Undefined), level_verbosity(LogLevel::Warn));
}

#[test]
fn forwarded_record_carries_identity() {
    let mut l = PluginLogger::new();
    l.set_plugin_id("p-9".to_string());
    l.set_plugin_type(PluginType::Source);
    l.set_level(LogLevel::Debug);
    let e = l.log(LogLevel::Info, "hello".to_string()).unwrap();
    assert_eq!(e.plugin_id, "p-9");
    assert_eq!(e.plugin_type, PluginType::Source);
    assert_eq!(e.log_level, LogLevel::Debug);
    assert_eq!(e.message, "hello");
    assert!(e.details.is_empty());
    assert!(l.log(LogLevel::Trace, "noise".to_string()).is_none());
}

#[test]
fn version_ordering_by_component() {
    let a = Version::new(1, 2, 3, 4);
    assert!(Version::new(1, 2, 3, 5).is_after(&a));
    assert!(!a.is_after(&a));
    assert!(!a.is_before(&a));
    assert!(Version::new(0, 9, 0, 0).is_after(&a));
    assert!(Version::new(2, 0, 0, 0).is_before(&Version::new(1, 5, 0, 0)));
    assert_eq!(a, Version { major: 1, minor: 2, patch: 3, build_number: 4 });
}
