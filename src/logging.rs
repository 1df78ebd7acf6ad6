use vstd::prelude::*;

verus! {

/// Severity of a log line, most severe first.
#[derive(Clone, Copy, PartialEq, Eq, Debug, Structural)]
pub enum LogLevel {
    Error,
    Warn,
    Info,
    Debug,
    Trace,
}

/// Verbosity rank of a level: 1 for `Error` up to 5 for `Trace`.
pub open spec fn spec_rank(level: LogLevel) -> nat {
    match level {
        LogLevel::Error => 1,
        LogLevel::Warn => 2,
        LogLevel::Info => 3,
        LogLevel::Debug => 4,
        LogLevel::Trace => 5,
    }
}

/// Tag written before the text of a line of `level`, seven characters wide.
pub open spec fn spec_prefix(level: LogLevel) -> &'static str {
    match level {
        LogLevel::Error => "[ERROR]",
        LogLevel::Warn => "[WARN] ",
        LogLevel::Info => "[INFO] ",
        LogLevel::Debug => "[DEBUG]",
        LogLevel::Trace => "[TRACE]",
    }
}

/// The log filter of the text console: lines up to `Info` are written,
/// each behind its level tag and ended by a newline.
#[derive(Clone, Copy, PartialEq, Eq, Debug, Default, Structural)]
pub struct PSXLogPlugin;

impl PSXLogPlugin {
    /// The most verbose level that is written.
    pub fn max_level(&self) -> (r: LogLevel)
        ensures
            r == LogLevel::Info,
    {
        LogLevel::Info
    }

    /// Whether lines of `level` are written.
    pub fn enabled(&self, level: LogLevel) -> (r: bool)
        ensures
            r == (spec_rank(level) <= spec_rank(LogLevel::Info)),
    {
        match level {
            LogLevel::Error | LogLevel::Warn | LogLevel::Info => true,
            LogLevel::Debug | LogLevel::Trace => false,
        }
    }

    /// The tag of a line of `level`.
    pub fn prefix(&self, level: LogLevel) -> (r: &'static str)
        ensures
            r@ == spec_prefix(level)@,
    {
        match level {
            LogLevel::Error => "[ERROR]",
            LogLevel::Warn => "[WARN] ",
            LogLevel::Info => "[INFO] ",
            LogLevel::Debug => "[DEBUG]",
            LogLevel::Trace => "[TRACE]",
        }
    }
}

} // verus!
