//! The log sink's rule: which records pass, and what each one holds.
//!
//! A [`Logger`] decides and builds; it writes nothing. The caller that owns
//! the destination takes the record that a call hands back, renders it and
//! writes the line in one piece while it alone holds the destination. A call
//! that hands back nothing leaves the destination untouched.

use crate::clock::{is_stamp, timestamp};
use crate::level::LogLevel;
use crate::record::LogRecord;
use vstd::prelude::*;

verus! {

/// A severity floor and the id of the logging process, both fixed when the
/// sink is made.
#[derive(Debug, Clone, Copy, PartialEq, Eq)]
pub struct Logger {
    min_log_level: LogLevel,
    pid: u32,
}

impl Logger {
    /// The floor of the sink: the least severity that it keeps.
    pub closed spec fn floor(&self) -> LogLevel {
        self.min_log_level
    }

    /// The process id that the sink writes into its records.
    pub closed spec fn process(&self) -> u32 {
        self.pid
    }

    /// A sink that keeps the records at least as severe as `min_log_level`
    /// and writes `pid` into each.
    pub fn new(min_log_level: LogLevel, pid: u32) -> (logger: Logger)
        ensures
            logger.floor() == min_log_level,
            logger.process() == pid,
    {
        Logger { min_log_level, pid }
    }

    /// The floor of the sink.
    pub fn min_log_level(&self) -> (level: LogLevel)
        ensures
            level == self.floor(),
    {
        self.min_log_level
    }

    /// The process id that the sink writes into its records.
    pub fn pid(&self) -> (pid: u32)
        ensures
            pid == self.process(),
    {
        self.pid
    }

    /// Whether the sink keeps a record of severity `level`.
    pub fn admits(&self, level: LogLevel) -> (kept: bool)
        ensures
            kept == level.passes(self.floor()),
    {
        level.admitted_by(self.min_log_level)
    }

    /// The record of one call whose stamp is given: none if `level` is below
    /// the floor, else the record of exactly these values.
    pub fn log_at(&self, level: LogLevel, timestamp: String, message: String) -> (record: Option<
        LogRecord,
    >)
        ensures
            record is Some <==> level.passes(self.floor()),
            record matches Some(r) ==> r.level == level && r.timestamp == timestamp && r.pid
                == self.process() && r.message == message,
    {
        if self.admits(level) {
            Some(LogRecord { level, timestamp, pid: self.pid, message })
        } else {
            None
        }
    }

    /// The record of one call, stamped with the local time of the call: none
    /// if `level` is below the floor, and then the clock is not read. The
    /// message is kept as it was given.
    pub fn log(&self, level: LogLevel, message: String) -> (record: Option<LogRecord>)
        ensures
            record is Some <==> level.passes(self.floor()),
            record matches Some(r) ==> r.level == level && is_stamp(r.timestamp@) && r.pid
                == self.process() && r.message == message,
    {
        if self.admits(level) {
            self.log_at(level, timestamp(), message)
        } else {
            None
        }
    }

    /// Logs `message` as an error.
    pub fn error(&self, message: String) -> (record: Option<LogRecord>)
        ensures
            record is Some <==> LogLevel::Error.passes(self.floor()),
            record matches Some(r) ==> r.level == LogLevel::Error && is_stamp(r.timestamp@)
                && r.pid == self.process() && r.message == message,
    {
        self.log(LogLevel::Error, message)
    }

    /// Logs `message` as information.
    pub fn info(&self, message: String) -> (record: Option<LogRecord>)
        ensures
            record is Some <==> LogLevel::Info.passes(self.floor()),
            record matches Some(r) ==> r.level == LogLevel::Info && is_stamp(r.timestamp@)
                && r.pid == self.process() && r.message == message,
    {
        self.log(LogLevel::Info, message)
    }

    /// Logs `message` as a warning.
    pub fn warn(&self, message: String) -> (record: Option<LogRecord>)
        ensures
            record is Some <==> LogLevel::Warn.passes(self.floor()),
            record matches Some(r) ==> r.level == LogLevel::Warn && is_stamp(r.timestamp@)
                && r.pid == self.process() && r.message == message,
    {
        self.log(LogLevel::Warn, message)
    }

    /// Logs `message` for debugging.
    pub fn debug(&self, message: String) -> (record: Option<LogRecord>)
        ensures
            record is Some <==> LogLevel::Debug.passes(self.floor()),
            record matches Some(r) ==> r.level == LogLevel::Debug && is_stamp(r.timestamp@)
                && r.pid == self.process() && r.message == message,
    {
        self.log(LogLevel::Debug, message)
    }
}

} // verus!
