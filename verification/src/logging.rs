//! Logging policy: the minimum-severity threshold handed to the logging
//! capability when it initializes.

use vstd::prelude::*;

verus! {

/// Severity of a log record, ordered from most verbose to most severe:
/// `Trace < Debug < Info < Warn < Error`.
#[derive(Clone, Copy, Debug, PartialEq, Eq, Structural)]
pub enum LogLevel {
    Trace,
    Debug,
    Info,
    Warn,
    Error,
}

impl LogLevel {
    /// Position of the level in the severity order; `Trace` is lowest.
    pub open spec fn severity(self) -> int {
        match self {
            LogLevel::Trace => 0,
            LogLevel::Debug => 1,
            LogLevel::Info => 2,
            LogLevel::Warn => 3,
            LogLevel::Error => 4,
        }
    }

    /// The rank that realizes the severity order.
    pub fn rank(&self) -> (r: u8)
        ensures
            r as int == self.severity(),
    {
        match self {
            LogLevel::Trace => 0,
            LogLevel::Debug => 1,
            LogLevel::Info => 2,
            LogLevel::Warn => 3,
            LogLevel::Error => 4,
        }
    }
}

/// Immutable logging policy: the least severe level that the logging
/// capability keeps. Fixed at construction; every other level is
/// unrepresentable by construction, so no runtime validation exists.
pub struct LogConfig {
    minimum_level: LogLevel,
}

impl LogConfig {
    /// The threshold fixed at construction.
    pub closed spec fn min_level(self) -> LogLevel {
        self.minimum_level
    }

    pub fn new(minimum_level: LogLevel) -> (c: LogConfig)
        ensures
            c.min_level() == minimum_level,
    {
        LogConfig { minimum_level }
    }

    pub fn minimum_level(&self) -> (r: LogLevel)
        ensures
            r == self.min_level(),
    {
        self.minimum_level
    }

    /// Whether a record at `level` is severe enough to pass the threshold.
    pub fn allows(&self, level: LogLevel) -> (r: bool)
        ensures
            r == (self.min_level().severity() <= level.severity()),
    {
        self.minimum_level.rank() <= level.rank()
    }
}

} // verus!
