//! Severity levels of log records.

use vstd::prelude::*;

verus! {

/// Severity of a record, from the least verbose (`Error`) to the most (`Trace`).
#[derive(Clone, Copy, PartialEq, Eq, Structural, Debug, Hash)]
pub enum Level {
    Error,
    Warn,
    Info,
    Debug,
    Trace,
}

impl Level {
    /// Position in the verbosity order: `Error` is 1, `Trace` is 5.
    /// A directive threshold of 0 lets nothing through.
    pub open spec fn rank(self) -> nat {
        match self {
            Level::Error => 1,
            Level::Warn => 2,
            Level::Info => 3,
            Level::Debug => 4,
            Level::Trace => 5,
        }
    }

    /// The upper-case name that starts every written line.
    pub open spec fn label(self) -> Seq<char> {
        match self {
            Level::Error => "ERROR"@,
            Level::Warn => "WARN"@,
            Level::Info => "INFO"@,
            Level::Debug => "DEBUG"@,
            Level::Trace => "TRACE"@,
        }
    }
}

/// `log::Level::as_str`: the level's name in upper case, the same text that
/// its `Display` impl writes.
#[verifier::external_body]
pub(crate) fn level_name(level: Level) -> (name: &'static str)
    ensures
        name@ == level.label(),
{
    let outside = match level {
        Level::Error => log::Level::Error,
        Level::Warn => log::Level::Warn,
        Level::Info => log::Level::Info,
        Level::Debug => log::Level::Debug,
        Level::Trace => log::Level::Trace,
    };
    outside.as_str()
}

} // verus!
