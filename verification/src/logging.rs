//! How much the tool writes to its log.

use vstd::prelude::*;

use crate::text::same_text;

verus! {

/// The levels of the log, from silence to everything.
#[derive(Debug, PartialEq, Eq, Clone, Copy, Structural)]
pub enum LoggingLevel {
    Off,
    Error,
    Warn,
    Info,
    Debug,
    Trace,
}

/// The level that a word names; `Info` for every word that names none.
pub open spec fn level_named(level: Seq<char>) -> LoggingLevel {
    if level == "debug"@ {
        LoggingLevel::Debug
    } else if level == "error"@ {
        LoggingLevel::Error
    } else if level == "warn"@ {
        LoggingLevel::Warn
    } else if level == "trace"@ {
        LoggingLevel::Trace
    } else if level == "off"@ {
        LoggingLevel::Off
    } else {
        LoggingLevel::Info
    }
}

/// The level that a word of the configuration names.
pub fn get_logging_level_from_string(level: &str) -> (filter: LoggingLevel)
    ensures
        filter == level_named(level@),
{
    if same_text(level, "debug") {
        LoggingLevel::Debug
    } else if same_text(level, "error") {
        LoggingLevel::Error
    } else if same_text(level, "warn") {
        LoggingLevel::Warn
    } else if same_text(level, "trace") {
        LoggingLevel::Trace
    } else if same_text(level, "off") {
        LoggingLevel::Off
    } else {
        LoggingLevel::Info
    }
}

} // verus!
