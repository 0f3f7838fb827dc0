//! The per-thread side of the backend: whether the thread has its file, how
//! the file is named, and what is written to it.
//!
//! The file itself and its buffer belong to the caller. A thread starts
//! `Uninitialized`, becomes `Open` once its file has been created, and stays
//! so until it ends.

use vstd::prelude::*;
use crate::error::LoggerError;
use crate::level::{level_name, Level};
use crate::naming::{file_name, file_name_of, text_of};

verus! {

/// Whether the calling thread has its file.
#[derive(Clone, Copy, PartialEq, Eq, Structural, Debug)]
pub enum ThreadFileRouter {
    /// The thread has no file: it has not been initialized.
    Uninitialized,
    /// The thread's file has been created and is being written to.
    Open,
}

/// The line written for a record: the level's name, `" - "`, the message and
/// a line feed.
pub open spec fn line_text(level: Level, message: Seq<char>) -> Seq<char> {
    level.label() + " - "@ + message + "\n"@
}

impl ThreadFileRouter {
    /// Whether the thread's file is open.
    pub open spec fn is_open(self) -> bool {
        self == ThreadFileRouter::Open
    }

    /// The state that [`ThreadFileRouter::opened`] leaves.
    pub open spec fn after_creation(self, created: bool) -> ThreadFileRouter {
        if created {
            ThreadFileRouter::Open
        } else {
            self
        }
    }

    /// The state of a thread that has not been initialized.
    pub fn new() -> (router: Self)
        ensures
            router == ThreadFileRouter::Uninitialized,
    {
        ThreadFileRouter::Uninitialized
    }

    /// Decides whether the thread's file has to be created.
    ///
    /// Where the thread has none, returns the name of the file that the caller
    /// now creates, truncating what is there, and writes to through a buffer;
    /// the caller then reports to [`ThreadFileRouter::opened`]. Where the
    /// thread has its file, returns `None`: the file is neither created nor
    /// truncated again.
    pub fn ensure_open(
        &self,
        prefix: &str,
        thread_name: Option<&str>,
        thread_id: &str,
    ) -> (create: Option<String>)
        ensures
            create is Some <==> !self.is_open(),
            create matches Some(path) ==> path@ == file_name_of(
                prefix@,
                text_of(thread_name),
                thread_id@,
            ),
    {
        match self {
            ThreadFileRouter::Open => None,
            ThreadFileRouter::Uninitialized => Some(file_name(prefix, thread_name, thread_id)),
        }
    }

    /// Records whether the thread's file could be created.
    ///
    /// A file that was created opens the thread. One that was not leaves the
    /// thread as it was, and the thread must not go on.
    pub fn opened(&mut self, created: bool) -> (done: Result<(), LoggerError>)
        ensures
            *final(self) == old(self).after_creation(created),
            done is Ok <==> created,
            done is Err ==> done->Err_0 == LoggerError::FileOpen,
    {
        if created {
            *self = ThreadFileRouter::Open;
            Ok(())
        } else {
            Err(LoggerError::FileOpen)
        }
    }

    /// Formats the line of a record for the thread's file. The caller appends
    /// it to the buffer and ignores a failure to write.
    ///
    /// Fails where the thread has no file.
    pub fn write_line(&self, level: Level, message: &str) -> (line: Result<String, LoggerError>)
        ensures
            match line {
                Ok(text) => self.is_open() && text@ == line_text(level, message@),
                Err(error) => !self.is_open() && error == LoggerError::Misuse,
            },
    {
        match self {
            ThreadFileRouter::Uninitialized => Err(LoggerError::Misuse),
            ThreadFileRouter::Open => Ok(
                level_name(level).to_owned().concat(" - ").concat(message).concat("\n"),
            ),
        }
    }

    /// Decides a flush of the thread's buffer. On `Ok` the caller flushes and
    /// ignores a failure.
    ///
    /// Fails where the thread has no file.
    pub fn flush(&self) -> (done: Result<(), LoggerError>)
        ensures
            done is Ok <==> self.is_open(),
            done is Err ==> done->Err_0 == LoggerError::Misuse,
    {
        match self {
            ThreadFileRouter::Uninitialized => Err(LoggerError::Misuse),
            ThreadFileRouter::Open => Ok(()),
        }
    }
}

} // verus!
