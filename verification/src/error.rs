//! Errors that the backend reports to its caller. Both are fatal for the
//! thread on which they arise.

use vstd::prelude::*;

verus! {

/// What stops a thread from logging.
#[derive(Clone, Copy, PartialEq, Eq, Structural, Debug)]
pub enum LoggerError {
    /// The thread's file could not be created.
    FileOpen,
    /// The thread wrote or flushed before it was initialized: it has no file.
    Misuse,
}

impl LoggerError {
    /// The text of the diagnostic with which the caller stops.
    pub open spec fn text(self) -> Seq<char> {
        match self {
            LoggerError::FileOpen => "Can't open tracing file"@,
            LoggerError::Misuse => "call the logger's initialize() function first"@,
        }
    }

    /// The diagnostic with which the caller stops.
    pub fn message(&self) -> (text: &'static str)
        ensures
            text@ == self.text(),
    {
        match self {
            LoggerError::FileOpen => "Can't open tracing file",
            LoggerError::Misuse => "call the logger's initialize() function first",
        }
    }
}

} // verus!
