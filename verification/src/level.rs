//! The fixed severity table: an explicit ordered mapping from a
//! configuration index to a log level, most severe first.
use vstd::prelude::*;

verus! {

/// Log severity, ordered from most severe (`Critical`, index 0) to least
/// severe (`Trace`, index 5).
#[derive(Clone, Copy, Debug, PartialEq, Eq, Structural)]
pub enum LogLevel {
    Critical,
    Error,
    Warning,
    Info,
    Debug,
    Trace,
}

impl View for LogLevel {
    type V = LogLevel;

    open spec fn view(&self) -> LogLevel {
        *self
    }
}

/// The severity table: index 0 is the most severe level; an index outside
/// the table has no level.
pub open spec fn spec_level_of_index(i: i64) -> Option<LogLevel> {
    if i == 0 {
        Some(LogLevel::Critical)
    } else if i == 1 {
        Some(LogLevel::Error)
    } else if i == 2 {
        Some(LogLevel::Warning)
    } else if i == 3 {
        Some(LogLevel::Info)
    } else if i == 4 {
        Some(LogLevel::Debug)
    } else if i == 5 {
        Some(LogLevel::Trace)
    } else {
        None
    }
}

/// Looks an index up in the severity table.
pub fn level_of_index(i: i64) -> (r: Option<LogLevel>)
    ensures
        r == spec_level_of_index(i),
{
    if i == 0 {
        Some(LogLevel::Critical)
    } else if i == 1 {
        Some(LogLevel::Error)
    } else if i == 2 {
        Some(LogLevel::Warning)
    } else if i == 3 {
        Some(LogLevel::Info)
    } else if i == 4 {
        Some(LogLevel::Debug)
    } else if i == 5 {
        Some(LogLevel::Trace)
    } else {
        None
    }
}

} // verus!
