use spt::logging::{get_logging_level_from_string, LoggingLevel};

#[test]
fn logging_levels() {
    assert_eq!(get_logging_level_from_string("debug"), LoggingLevel::Debug);
    assert_eq!(get_logging_level_from_string("error"), LoggingLevel::Error);
    assert_eq!(get_logging_level_from_string("warn"), LoggingLevel::Warn);
    assert_eq!(get_logging_level_from_string("trace"), LoggingLevel::Trace);
    assert_eq!(get_logging_level_from_string("off"), LoggingLevel::Off);
    assert_eq!(get_logging_level_from_string("info"), LoggingLevel::Info);
    assert_eq!(get_logging_level_from_string("DEBUG"), LoggingLevel::Info);
    assert_eq!(get_logging_level_from_string(""), LoggingLevel::Info);
    assert_eq!(get_logging_level_from_string("debug "), LoggingLevel::Info);
}
