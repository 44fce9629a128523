//! Logging policy: which records are kept and how a line is formed.
//!
//! The sink that prints the line and registers with the logging facade is
//! unverified plumbing; it asks this module whether a record's level is
//! enabled and how to format its line.

use vstd::prelude::*;

verus! {

/// Severity levels, most severe first.
#[derive(Clone, Copy, PartialEq, Eq, Structural, Debug)]
pub enum LogLevel {
    Error,
    Warn,
    Info,
    Debug,
    Trace,
}

/// Numeric severity: a smaller number is more severe.
pub open spec fn spec_severity(level: LogLevel) -> int {
    match level {
        LogLevel::Error => 1,
        LogLevel::Warn => 2,
        LogLevel::Info => 3,
        LogLevel::Debug => 4,
        LogLevel::Trace => 5,
    }
}

/// The label a level prints as.
pub open spec fn spec_level_label(level: LogLevel) -> Seq<char> {
    match level {
        LogLevel::Error => "ERROR"@,
        LogLevel::Warn => "WARN"@,
        LogLevel::Info => "INFO"@,
        LogLevel::Debug => "DEBUG"@,
        LogLevel::Trace => "TRACE"@,
    }
}

/// The logger's configuration: the least severe level it keeps.
#[derive(Clone, Copy, PartialEq, Eq, Structural, Debug)]
pub struct LogConfig {
    pub max_level: LogLevel,
}

/// Sets the logging policy up: records up to and including the
/// informational level are kept, tracing and debugging are dropped.
pub fn init() -> (config: LogConfig)
    ensures
        config.max_level == LogLevel::Info,
{
    LogConfig { max_level: LogLevel::Info }
}

/// Whether a record at `level` is kept under `config`: exactly when it is
/// at least as severe as the configured maximum.
pub fn enabled(config: &LogConfig, level: LogLevel) -> (r: bool)
    ensures
        r == (spec_severity(level) <= spec_severity(config.max_level)),
{
    let s = match level {
        LogLevel::Error => 1u8,
        LogLevel::Warn => 2u8,
        LogLevel::Info => 3u8,
        LogLevel::Debug => 4u8,
        LogLevel::Trace => 5u8,
    };
    let m = match config.max_level {
        LogLevel::Error => 1u8,
        LogLevel::Warn => 2u8,
        LogLevel::Info => 3u8,
        LogLevel::Debug => 4u8,
        LogLevel::Trace => 5u8,
    };
    s <= m
}

fn level_label(level: LogLevel) -> (r: &'static str)
    ensures
        r@ == spec_level_label(level),
{
    match level {
        LogLevel::Error => "ERROR",
        LogLevel::Warn => "WARN",
        LogLevel::Info => "INFO",
        LogLevel::Debug => "DEBUG",
        LogLevel::Trace => "TRACE",
    }
}

/// The printed form of one record: `[time, LEVEL] message`.
pub fn format_log_line(time: &str, level: LogLevel, message: &str) -> (r: String)
    ensures
        r@ == "["@ + time@ + ", "@ + spec_level_label(level) + "] "@ + message@,
{
    let mut line: String = "[".to_owned();
    line.append(time);
    line.append(", ");
    line.append(level_label(level));
    line.append("] ");
    line.append(message);
    line
}

} // verus!
