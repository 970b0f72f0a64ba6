//! The supervisor: the configured set of units.
//!
//! The supervisor makes one unit for each entry of its configuration. The
//! caller then runs each unit by itself; units share nothing but the log.

use crate::decimal::{decimal, push_decimal};
use crate::level::LogLevel;
use crate::outcome::RestartPolicy;
use crate::unit::{LogEntry, SupervisedUnit, UnitState};
use vstd::prelude::*;
use vstd::string::*;

verus! {

/// Whether `unit` is the fresh unit of a task id and a command line under
/// `policy`.
pub open spec fn is_fresh_unit(
    unit: SupervisedUnit,
    task_id: nat,
    command_line: Seq<char>,
    policy: RestartPolicy,
) -> bool {
    &&& unit.id() == task_id
    &&& unit.command() == command_line
    &&& unit.restart_policy() == policy
    &&& unit.current() == UnitState::Spawning
}

/// The text of the entry that a supervisor of `count` units logs when it
/// starts.
pub open spec fn startup_text(count: nat) -> Seq<char> {
    "Supervising "@ + decimal(count) + " tasks"@
}

/// Numbers a list of command lines: the first gets the task id 1, the next
/// 2, and so on.
pub fn number_tasks(command_lines: &Vec<String>) -> (config: Vec<(usize, String)>)
    ensures
        config@.len() == command_lines@.len(),
        forall|i: int|
            0 <= i < config@.len() ==> (#[trigger] config@[i]).0 == i + 1 && config@[i].1@
                == command_lines@[i]@,
{
    let mut config: Vec<(usize, String)> = Vec::new();
    let mut i: usize = 0;
    while i < command_lines.len()
        invariant
            i <= command_lines@.len(),
            config@.len() == i,
            forall|k: int|
                0 <= k < i ==> (#[trigger] config@[k]).0 == k + 1 && config@[k].1@
                    == command_lines@[k]@,
        decreases command_lines@.len() - i,
    {
        let command_line = command_lines[i].clone();
        config.push((i + 1, command_line));
        i = i + 1;
    }
    config
}

/// The units of one watchdog, in the order of its configuration.
#[derive(Debug, Clone, PartialEq, Eq)]
pub struct Supervisor {
    units: Vec<SupervisedUnit>,
}

impl Supervisor {
    /// The units of the supervisor.
    pub closed spec fn members(&self) -> Seq<SupervisedUnit> {
        self.units@
    }

    /// A supervisor with one fresh unit for each entry of `config`, a task
    /// id and a command line, all under `policy`.
    pub fn new(config: &Vec<(usize, String)>, policy: RestartPolicy) -> (supervisor: Supervisor)
        ensures
            supervisor.members().len() == config@.len(),
            forall|i: int|
                0 <= i < config@.len() ==> is_fresh_unit(
                    #[trigger] supervisor.members()[i],
                    config@[i].0 as nat,
                    config@[i].1@,
                    policy,
                ),
    {
        let mut units: Vec<SupervisedUnit> = Vec::new();
        let mut i: usize = 0;
        while i < config.len()
            invariant
                i <= config@.len(),
                units@.len() == i,
                forall|k: int|
                    0 <= k < i ==> is_fresh_unit(
                        #[trigger] units@[k],
                        config@[k].0 as nat,
                        config@[k].1@,
                        policy,
                    ),
            decreases config@.len() - i,
        {
            let task_id = config[i].0;
            let command_line = config[i].1.clone();
            units.push(SupervisedUnit::new(task_id, command_line, policy));
            i = i + 1;
        }
        Supervisor { units }
    }

    /// The number of units.
    pub fn unit_count(&self) -> (count: usize)
        ensures
            count == self.members().len(),
    {
        self.units.len()
    }

    /// The entry that the supervisor logs once, when it starts.
    pub fn startup_entry(&self) -> (entry: LogEntry)
        ensures
            entry.level == LogLevel::Info,
            entry.message@ == startup_text(self.members().len()),
    {
        let mut message = String::from_str("Supervising ");
        push_decimal(&mut message, self.units.len() as u64);
        message.append(" tasks");
        LogEntry { level: LogLevel::Info, message }
    }

    /// Gives the units away, each to be run by itself.
    pub fn into_units(self) -> (units: Vec<SupervisedUnit>)
        ensures
            units@ == self.members(),
    {
        self.units
    }
}

} // verus!
