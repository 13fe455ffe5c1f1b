//! Log records as the UI shows them: severity levels, level filters and
//! entries.
use vstd::prelude::*;

verus! {

/// Severity of a log record, from the most to the least severe.
#[derive(Debug, Clone, Copy, PartialEq, Eq, Structural)]
pub enum Level {
    Error,
    Warn,
    Info,
    Debug,
    Trace,
}

/// The most verbose level a view lets through (`Off` lets nothing through).
#[derive(Debug, Clone, Copy, PartialEq, Eq, Structural)]
pub enum LevelFilter {
    Off,
    Error,
    Warn,
    Info,
    Debug,
    Trace,
}

impl Level {
    /// Verbosity rank: `Error` is 1, `Trace` is 5.
    pub open spec fn rank(self) -> nat {
        match self {
            Level::Error => 1,
            Level::Warn => 2,
            Level::Info => 3,
            Level::Debug => 4,
            Level::Trace => 5,
        }
    }

    /// Upper-case name of the level.
    pub open spec fn name(self) -> Seq<char> {
        match self {
            Level::Error => "ERROR"@,
            Level::Warn => "WARN"@,
            Level::Info => "INFO"@,
            Level::Debug => "DEBUG"@,
            Level::Trace => "TRACE"@,
        }
    }

    /// Upper-case name of the level.
    pub fn as_str(self) -> (r: &'static str)
        ensures
            r@ == self.name(),
    {
        match self {
            Level::Error => "ERROR",
            Level::Warn => "WARN",
            Level::Info => "INFO",
            Level::Debug => "DEBUG",
            Level::Trace => "TRACE",
        }
    }
}

impl LevelFilter {
    /// Verbosity rank: `Off` is 0, `Trace` is 5.
    pub open spec fn rank(self) -> nat {
        match self {
            LevelFilter::Off => 0,
            LevelFilter::Error => 1,
            LevelFilter::Warn => 2,
            LevelFilter::Info => 3,
            LevelFilter::Debug => 4,
            LevelFilter::Trace => 5,
        }
    }
}

/// Whether a record of the given level passes the filter.
pub open spec fn enabled(level: Level, filter: LevelFilter) -> bool {
    level.rank() <= filter.rank()
}

/// Whether a record of the given level passes the filter: its level is at
/// most as verbose as the filter.
pub fn level_enabled(level: Level, filter: LevelFilter) -> (r: bool)
    ensures
        r == enabled(level, filter),
{
    let l: u8 = match level {
        Level::Error => 1,
        Level::Warn => 2,
        Level::Info => 3,
        Level::Debug => 4,
        Level::Trace => 5,
    };
    let f: u8 = match filter {
        LevelFilter::Off => 0,
        LevelFilter::Error => 1,
        LevelFilter::Warn => 2,
        LevelFilter::Info => 3,
        LevelFilter::Debug => 4,
        LevelFilter::Trace => 5,
    };
    l <= f
}

/// One log record.  `timestamp` is the local time of the record, rendered
/// as `HH:MM:SS.mmm`.
#[derive(Debug, Clone)]
pub struct LogEntry {
    pub level: Level,
    pub module: Option<String>,
    pub message: String,
    pub timestamp: String,
}

} // verus!
