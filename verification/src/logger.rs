//! The sink that the dispatch mechanism calls: the filter together with the
//! two states decides what becomes of a record.

use vstd::prelude::*;
use env_logger::filter::Filter;
use crate::directive::{filter_enabled, filter_rules, permits, Rule};
use crate::error::LoggerError;
use crate::level::Level;
use crate::registrar::{enabled, Registration};
use crate::router::{line_text, ThreadFileRouter};

verus! {

/// A sink that writes every record that its filter lets through to the file
/// of the thread that produced it.
pub struct FilePerThreadLogger {
    filter: Filter,
}

impl View for FilePerThreadLogger {
    type V = Seq<Rule>;

    /// The rules of the sink's filter.
    closed spec fn view(&self) -> Seq<Rule> {
        filter_rules(self.filter)
    }
}

impl FilePerThreadLogger {
    /// A sink that filters with `filter`.
    pub fn new(filter: Filter) -> (logger: Self)
        ensures
            logger@ == filter_rules(filter),
    {
        FilePerThreadLogger { filter }
    }

    /// Whether the sink takes a record of `level` and `target` in a process
    /// in state `registration`.
    pub open spec fn takes(
        &self,
        registration: Registration,
        level: Level,
        target: Seq<char>,
    ) -> bool {
        registration.is_registered() && permits(self@, level, target)
    }

    /// Whether a record of `level` and `target` would be written: the backend
    /// is registered and the filter lets the record through.
    pub fn enabled(&self, registration: &Registration, level: Level, target: &str) -> (yes: bool)
        ensures
            yes == self.takes(*registration, level, target@),
    {
        enabled(registration) && filter_enabled(&self.filter, level, target)
    }

    /// Decides what becomes of a record on a thread in state `router`.
    ///
    /// `Ok(None)`: the record is dropped. `Ok(Some(line))`: the caller
    /// appends `line` to the thread's file and ignores a failure to write.
    /// `Err`: the record is enabled and the thread has no file.
    pub fn log(
        &self,
        registration: &Registration,
        router: &ThreadFileRouter,
        level: Level,
        target: &str,
        message: &str,
    ) -> (action: Result<Option<String>, LoggerError>)
        ensures
            match action {
                Ok(None) => !self.takes(*registration, level, target@),
                Ok(Some(line)) => self.takes(*registration, level, target@) && router.is_open()
                    && line@ == line_text(level, message@),
                Err(error) => self.takes(*registration, level, target@) && !router.is_open()
                    && error == LoggerError::Misuse,
            },
    {
        if self.enabled(registration, level, target) {
            match router.write_line(level, message) {
                Ok(line) => Ok(Some(line)),
                Err(error) => Err(error),
            }
        } else {
            Ok(None)
        }
    }

    /// Decides a flush on a thread in state `router`. On `Ok` the caller
    /// flushes the thread's buffer and ignores a failure.
    pub fn flush(&self, router: &ThreadFileRouter) -> (done: Result<(), LoggerError>)
        ensures
            done is Ok <==> router.is_open(),
            done is Err ==> done->Err_0 == LoggerError::Misuse,
    {
        router.flush()
    }
}

} // verus!
