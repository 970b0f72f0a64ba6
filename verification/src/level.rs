//! Severities of log records and their order.

use std::cmp::Ordering;
use vstd::prelude::*;

verus! {

/// Severity of a log record.
///
/// The order is by urgency: `Debug < Info < Warn < Error`. A sink configured
/// with a floor keeps the records that are at least as severe as the floor,
/// so a floor of `Info` keeps `Info`, `Warn` and `Error` and drops `Debug`.
#[derive(Debug, Clone, Copy, PartialEq, Eq, Structural, Ord, Hash)]
pub enum LogLevel {
    Debug,
    Info,
    Warn,
    Error,
}

impl LogLevel {
    /// Position of the severity in the order, from 0 for `Debug` to 3 for `Error`.
    pub open spec fn severity(self) -> nat {
        match self {
            LogLevel::Debug => 0,
            LogLevel::Info => 1,
            LogLevel::Warn => 2,
            LogLevel::Error => 3,
        }
    }

    /// The tag that stands for the severity in a log line.
    pub open spec fn tag(self) -> Seq<char> {
        match self {
            LogLevel::Debug => seq!['D', 'E', 'B', 'U', 'G'],
            LogLevel::Info => seq!['I', 'N', 'F', 'O'],
            LogLevel::Warn => seq!['W', 'A', 'R', 'N'],
            LogLevel::Error => seq!['E', 'R', 'R', 'O', 'R'],
        }
    }

    /// Whether a record of this severity passes a sink whose floor is `floor`.
    pub open spec fn passes(self, floor: LogLevel) -> bool {
        self.severity() >= floor.severity()
    }

    /// Upper-case name of the severity, as written into a log line.
    pub fn as_str(&self) -> (s: &'static str)
        ensures
            s@ == self.tag(),
    {
        proof {
            reveal_strlit("DEBUG");
            reveal_strlit("INFO");
            reveal_strlit("WARN");
            reveal_strlit("ERROR");
        }
        let s = match self {
            LogLevel::Debug => "DEBUG",
            LogLevel::Info => "INFO",
            LogLevel::Warn => "WARN",
            LogLevel::Error => "ERROR",
        };
        assert(s@ =~= self.tag());
        s
    }

    /// Position of the severity in the order, as a number.
    pub fn rank(&self) -> (r: u8)
        ensures
            r == self.severity(),
    {
        match self {
            LogLevel::Debug => 0,
            LogLevel::Info => 1,
            LogLevel::Warn => 2,
            LogLevel::Error => 3,
        }
    }

    /// Tells whether a record of this severity passes a sink whose floor is
    /// `floor`: it does when it is at least as severe as the floor.
    pub fn admitted_by(&self, floor: LogLevel) -> (b: bool)
        ensures
            b == self.passes(floor),
    {
        self.rank() >= floor.rank()
    }
}

impl PartialOrd for LogLevel {
    fn partial_cmp(&self, other: &LogLevel) -> (r: Option<Ordering>) {
        let a: u8 = self.rank();
        let b: u8 = other.rank();
        if a < b {
            Some(Ordering::Less)
        } else if a > b {
            Some(Ordering::Greater)
        } else {
            Some(Ordering::Equal)
        }
    }
}

impl vstd::std_specs::cmp::PartialOrdSpecImpl for LogLevel {
    open spec fn obeys_partial_cmp_spec() -> bool {
        true
    }

    open spec fn partial_cmp_spec(&self, other: &LogLevel) -> Option<Ordering> {
        if self.severity() < other.severity() {
            Some(Ordering::Less)
        } else if self.severity() > other.severity() {
            Some(Ordering::Greater)
        } else {
            Some(Ordering::Equal)
        }
    }
}

} // verus!
