use startup::logging::{LogConfig, LogLevel};

#[test]
fn severity_ranks_follow_the_order() {
    assert_eq!(LogLevel::Trace.rank(), 0);
    assert_eq!(LogLevel::Debug.rank(), 1);
    assert_eq!(LogLevel::Info.rank(), 2);
    assert_eq!(LogLevel::Warn.rank(), 3);
    assert_eq!(LogLevel::Error.rank(), 4);
}

#[test]
fn debug_threshold_keeps_debug_and_above() {
    let config = LogConfig::new(LogLevel::Debug);
    assert!(!config.allows(LogLevel::Trace));
    assert!(config.allows(LogLevel::Debug));
    assert!(config.allows(LogLevel::Info));
    assert!(config.allows(LogLevel::Warn));
    assert!(config.allows(LogLevel::Error));
}

#[test]
fn error_threshold_keeps_only_error() {
    let config = LogConfig::new(LogLevel::Error);
    assert!(!config.allows(LogLevel::Trace));
    assert!(!config.allows(LogLevel::Debug));
    assert!(!config.allows(LogLevel::Info));
    assert!(!config.allows(LogLevel::Warn));
    assert!(config.allows(LogLevel::Error));
}

#[test]
fn trace_threshold_keeps_everything() {
    let config = LogConfig::new(LogLevel::Trace);
    assert!(config.allows(LogLevel::Trace));
    assert!(config.allows(LogLevel::Error));
    assert_eq!(config.minimum_level(), LogLevel::Trace);
}
