//! How much is logged.

use vstd::prelude::*;

verus! {

/// How much is logged, from least to most.
#[derive(Clone, Copy, Debug, PartialEq, Eq, Structural)]
pub enum LogLevel {
    Error,
    Warn,
    Info,
    Debug,
    Trace,
}

/// The level that goes with a count of verbosity flags: each flag opens one
/// level more, and from four flags on everything is logged.
pub open spec fn level_for(verbosity: u8) -> LogLevel {
    if verbosity == 0 {
        LogLevel::Error
    } else if verbosity == 1 {
        LogLevel::Warn
    } else if verbosity == 2 {
        LogLevel::Info
    } else if verbosity == 3 {
        LogLevel::Debug
    } else {
        LogLevel::Trace
    }
}

/// The level that goes with a count of verbosity flags.
pub fn log_level(verbosity: u8) -> (level: LogLevel)
    ensures
        level == level_for(verbosity),
{
    match verbosity {
        0 => LogLevel::Error,
        1 => LogLevel::Warn,
        2 => LogLevel::Info,
        3 => LogLevel::Debug,
        _ => LogLevel::Trace,
    }
}

} // verus!
