use reign_ng::logger::initialize_logger;
use reign_ng::logger::parse_level;
use reign_ng::logger::LogLevel;

#[test]
fn unset_filter_defaults_to_info() {
    let logger = initialize_logger(None);
    assert_eq!(logger.level, LogLevel::Info);
}

#[test]
fn filter_value_picks_the_level() {
    assert_eq!(initialize_logger(Some(String::from("trace"))).level, LogLevel::Trace);
    assert_eq!(initialize_logger(Some(String::from("debug"))).level, LogLevel::Debug);
    assert_eq!(initialize_logger(Some(String::from("warn"))).level, LogLevel::Warn);
    assert_eq!(initialize_logger(Some(String::from("error"))).level, LogLevel::Error);
}

#[test]
fn unrecognised_filter_falls_back_to_info() {
    assert_eq!(parse_level("verbose"), LogLevel::Info);
    assert_eq!(parse_level(""), LogLevel::Info);
}

#[test]
fn threshold_filters_by_severity() {
    let mut logger = initialize_logger(Some(String::from("warn")));
    assert!(!logger.enabled(LogLevel::Info));
    assert!(logger.enabled(LogLevel::Warn));
    assert!(logger.enabled(LogLevel::Error));
    logger.set_level(LogLevel::Trace);
    assert!(logger.enabled(LogLevel::Debug));
}
