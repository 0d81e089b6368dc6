use vstd::prelude::*;

verus! {

/// Severity of one log entry, and of the logger's own filter.
#[allow(non_camel_case_types)]
#[derive(Debug, Clone, Copy, PartialEq, Eq, Structural)]
pub enum LogLevel {
    DEBUG,
    INFO,
    WARN,
    ERROR,
}

impl LogLevel {
    /// The label a log line carries for this level.
    pub open spec fn spec_label(self) -> Seq<char> {
        match self {
            LogLevel::DEBUG => "DEBUG"@,
            LogLevel::INFO => "INFO"@,
            LogLevel::WARN => "WARN"@,
            LogLevel::ERROR => "ERROR"@,
        }
    }

    pub fn as_str(&self) -> (r: &str)
        ensures
            r@ == self.spec_label(),
    {
        match self {
            LogLevel::DEBUG => "DEBUG",
            LogLevel::INFO => "INFO",
            LogLevel::WARN => "WARN",
            LogLevel::ERROR => "ERROR",
        }
    }
}

/// An entry at `level` passes a filter set to `min` exactly when it is at
/// least as severe.
pub open spec fn spec_should_log(min: LogLevel, level: LogLevel) -> bool {
    match min {
        LogLevel::DEBUG => true,
        LogLevel::INFO => level != LogLevel::DEBUG,
        LogLevel::WARN => level == LogLevel::WARN || level == LogLevel::ERROR,
        LogLevel::ERROR => level == LogLevel::ERROR,
    }
}

/// The logging policy every service shares: the least level that gets
/// written, and where entries go (a file, or the console when absent).
#[derive(Debug, Clone)]
pub struct Logger {
    pub level: LogLevel,
    pub log_file: Option<String>,
}

impl Logger {
    pub fn new(level: LogLevel, log_file: Option<String>) -> (r: Self)
        ensures
            r.level == level,
            r.log_file == log_file,
    {
        Logger { level, log_file }
    }

    /// Whether an entry at `level` should be written under this logger's
    /// filter.
    pub fn should_log(&self, level: &LogLevel) -> (r: bool)
        ensures
            r == spec_should_log(self.level, *level),
    {
        match (self.level, level) {
            (LogLevel::DEBUG, _) => true,
            (LogLevel::INFO, LogLevel::INFO)
            | (LogLevel::INFO, LogLevel::WARN)
            | (LogLevel::INFO, LogLevel::ERROR) => true,
            (LogLevel::WARN, LogLevel::WARN) | (LogLevel::WARN, LogLevel::ERROR) => true,
            (LogLevel::ERROR, LogLevel::ERROR) => true,
            _ => false,
        }
    }
}

} // verus!
