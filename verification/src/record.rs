//! Log records and the line that each one becomes.

use crate::decimal::{decimal, push_decimal};
use crate::level::LogLevel;
use vstd::prelude::*;
use vstd::string::*;

verus! {

/// What stands in a line before the message: the stamp, the process id,
/// the severity tag and the process id once more, each in its brackets.
///
/// `[<stamp>][PID <pid>][<TAG>][<pid>] `
pub open spec fn line_head(stamp: Seq<char>, pid: nat, level: LogLevel) -> Seq<char> {
    "["@ + stamp + "][PID "@ + decimal(pid) + "]["@ + level.tag() + "]["@ + decimal(pid) + "] "@
}

/// The line of a record: its head, the message as it was given, and a line
/// feed.
///
/// `[<stamp>][PID <pid>][<TAG>][<pid>] <message>` and `\n`.
pub open spec fn line_text(stamp: Seq<char>, pid: nat, level: LogLevel, message: Seq<char>) -> Seq<
    char,
> {
    line_head(stamp, pid, level) + message + "\n"@
}

/// One log record: built for one call, written once, then dropped.
#[derive(Debug, Clone, PartialEq, Eq)]
pub struct LogRecord {
    /// Severity of the record.
    pub level: LogLevel,
    /// Local time at which the record was made.
    pub timestamp: String,
    /// Id of the process that made the record.
    pub pid: u32,
    /// Free text of the record.
    pub message: String,
}

impl LogRecord {
    /// The line that the record becomes in the log.
    pub open spec fn text(&self) -> Seq<char> {
        line_text(self.timestamp@, self.pid as nat, self.level, self.message@)
    }

    /// Writes the record out as its line, line feed included.
    pub fn render(&self) -> (line: String)
        ensures
            line@ == self.text(),
    {
        let mut line = String::from_str("[");
        line.append(self.timestamp.as_str());
        line.append("][PID ");
        push_decimal(&mut line, self.pid as u64);
        line.append("][");
        line.append(self.level.as_str());
        line.append("][");
        push_decimal(&mut line, self.pid as u64);
        line.append("] ");
        line.append(self.message.as_str());
        line.append("\n");
        line
    }
}

} // verus!
