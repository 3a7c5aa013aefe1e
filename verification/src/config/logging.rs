//! How much the tool logs and where.

use vstd::prelude::*;
use crate::text::owned;

verus! {

/// The least severe level that is logged.
#[derive(Clone, Copy, Debug, PartialEq, Eq, Structural)]
pub enum LoggingLevel {
    Trace,
    Debug,
    Info,
    Warn,
    Error,
}

impl Default for LoggingLevel {
    fn default() -> (r: Self)
        ensures
            r == LoggingLevel::Info,
    {
        LoggingLevel::Info
    }
}

/// The logging settings.
#[derive(Clone, Debug)]
pub struct LoggingConfig {
    pub level: LoggingLevel,
    pub file: String,
}

/// The log file when none is configured.
pub const DEFAULT_LOG_FILE: &'static str = "nenechi-cli.log";

impl LoggingConfig {
    /// The log file when none is configured.
    pub fn default_file() -> (r: String)
        ensures
            r@ == DEFAULT_LOG_FILE@,
    {
        owned(DEFAULT_LOG_FILE)
    }
}

impl Default for LoggingConfig {
    fn default() -> (r: Self)
        ensures
            r.level == LoggingLevel::Info,
            r.file@ == DEFAULT_LOG_FILE@,
    {
        LoggingConfig { level: LoggingLevel::Info, file: Self::default_file() }
    }
}

} // verus!
