//! The logging handle.
//!
//! Severity filtering is an explicit handle built once at startup from the
//! `LOG` environment value and passed by reference wherever runtime severity
//! adjustment is needed — no process-wide singleton. Rendering log lines is
//! the caller's business; the handle only decides what is enabled.

use vstd::prelude::*;
use crate::env::str_eq;

verus! {

/// Log severity, least to most severe.
#[derive(Clone, Copy, Debug, PartialEq, Eq, Structural)]
pub enum LogLevel {
    /// Every step, including each child-process line.
    Trace,
    /// Stage-by-stage progress.
    Debug,
    /// The default: start, readiness and success lines.
    Info,
    /// Suspicious but non-fatal events, such as stderr output.
    Warn,
    /// Failures only.
    Error,
}

/// Rank of a severity; a message is enabled when its rank is at least the
/// handle's.
pub open spec fn spec_severity(level: LogLevel) -> int {
    match level {
        LogLevel::Trace => 0,
        LogLevel::Debug => 1,
        LogLevel::Info => 2,
        LogLevel::Warn => 3,
        LogLevel::Error => 4,
    }
}

/// The level a verbosity filter string names; anything unrecognised (or an
/// unset filter) falls back to `Info`, the default verbosity.
pub open spec fn spec_parse_level(s: Seq<char>) -> LogLevel {
    if s == "trace"@ {
        LogLevel::Trace
    } else if s == "debug"@ {
        LogLevel::Debug
    } else if s == "info"@ {
        LogLevel::Info
    } else if s == "warn"@ {
        LogLevel::Warn
    } else if s == "error"@ {
        LogLevel::Error
    } else {
        LogLevel::Info
    }
}

/// Parse a verbosity filter string, falling back to `Info`.
pub fn parse_level(s: &str) -> (r: LogLevel)
    ensures
        r == spec_parse_level(s@),
{
    if str_eq(s, "trace") {
        LogLevel::Trace
    } else if str_eq(s, "debug") {
        LogLevel::Debug
    } else if str_eq(s, "info") {
        LogLevel::Info
    } else if str_eq(s, "warn") {
        LogLevel::Warn
    } else if str_eq(s, "error") {
        LogLevel::Error
    } else {
        LogLevel::Info
    }
}

/// The logging handle: the severity threshold currently in force.
#[derive(Clone, Copy, Debug)]
pub struct Logger {
    /// Messages below this severity are dropped.
    pub level: LogLevel,
}

/// Build the logging handle from the `LOG` environment value, when one is
/// set; the default verbosity is `Info`.
pub fn initialize_logger(env_filter: Option<String>) -> (r: Logger)
    ensures
        env_filter matches Some(s) ==> r.level == spec_parse_level(s@),
        env_filter is None ==> r.level == LogLevel::Info,
{
    match env_filter {
        Some(s) => Logger { level: parse_level(s.as_str()) },
        None => Logger { level: LogLevel::Info },
    }
}

impl Logger {
    /// Adjust the severity threshold at runtime.
    pub fn set_level(&mut self, level: LogLevel)
        ensures
            final(self).level == level,
    {
        self.level = level;
    }

    /// Whether a message of the given severity passes the filter.
    pub fn enabled(&self, level: LogLevel) -> (r: bool)
        ensures
            r == (spec_severity(level) >= spec_severity(self.level)),
    {
        let message_rank: u8 = match level {
            LogLevel::Trace => 0,
            LogLevel::Debug => 1,
            LogLevel::Info => 2,
            LogLevel::Warn => 3,
            LogLevel::Error => 4,
        };
        let threshold_rank: u8 = match self.level {
            LogLevel::Trace => 0,
            LogLevel::Debug => 1,
            LogLevel::Info => 2,
            LogLevel::Warn => 3,
            LogLevel::Error => 4,
        };
        message_rank >= threshold_rank
    }
}

} // verus!
