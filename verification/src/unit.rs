//! The supervised unit: the restart state machine of one managed process.
//!
//! A unit decides and its caller acts. The caller asks the unit for its next
//! action, performs it (starts the process, waits for its end, sleeps), and
//! hands back what happened as an event; the unit moves to its next state and
//! says what is to be logged.

use crate::command::{is_blank, parse_command_line, words_of, CommandLine};
use crate::decimal::{decimal, push_decimal};
use crate::level::LogLevel;
use crate::outcome::{Outcome, RestartPolicy};
use vstd::prelude::*;
use vstd::string::*;

verus! {

/// Where a unit stands in its life.
#[derive(Debug, Clone, Copy, PartialEq, Eq, Structural, Hash)]
pub enum UnitState {
    /// No process is alive; the next one is about to be started.
    Spawning,
    /// A process is alive and its end is awaited.
    Running,
    /// The process left with success. The unit is done and stays so.
    ExitedSuccess,
    /// The process left without success; the unit will start another.
    ExitedFailure,
    /// The process could not be started, or its end could not be observed;
    /// the unit will start another.
    Error,
}

/// What the caller reports back to a unit.
#[derive(Debug, Clone, PartialEq, Eq)]
pub enum Event {
    /// The process was started and is alive.
    Spawned,
    /// The run is over, or never began: its outcome.
    Ended(Outcome),
    /// The delay before a restart has passed.
    DelayElapsed,
}

/// What the caller is to do next for a unit.
#[derive(Debug, Clone, Copy, PartialEq, Eq, Structural)]
pub enum Action {
    /// Start a process from the unit's command line.
    Spawn,
    /// Wait for the end of the live process.
    Wait,
    /// Let so many seconds pass.
    Sleep(u64),
    /// Nothing more: the unit is done.
    Stop,
}

/// A message and the severity to log it with.
#[derive(Debug, Clone, PartialEq, Eq)]
pub struct LogEntry {
    pub level: LogLevel,
    pub message: String,
}

/// Whether a unit in `state` expects `event`. An event that is not expected
/// is ignored.
pub open spec fn accepts(state: UnitState, event: Event) -> bool {
    match (state, event) {
        (UnitState::Spawning, Event::Spawned) => true,
        (UnitState::Spawning, Event::Ended(Outcome::SpawnFailure(_))) => true,
        (UnitState::Running, Event::Ended(Outcome::Success)) => true,
        (UnitState::Running, Event::Ended(Outcome::Failure(_))) => true,
        (UnitState::Running, Event::Ended(Outcome::WaitError(_))) => true,
        (UnitState::ExitedFailure, Event::DelayElapsed) => true,
        (UnitState::Error, Event::DelayElapsed) => true,
        _ => false,
    }
}

/// The state that follows `state` on `event`.
pub open spec fn step(state: UnitState, event: Event) -> UnitState {
    match (state, event) {
        (UnitState::Spawning, Event::Spawned) => UnitState::Running,
        (UnitState::Spawning, Event::Ended(Outcome::SpawnFailure(_))) => UnitState::Error,
        (UnitState::Running, Event::Ended(Outcome::Success)) => UnitState::ExitedSuccess,
        (UnitState::Running, Event::Ended(Outcome::Failure(_))) => UnitState::ExitedFailure,
        (UnitState::Running, Event::Ended(Outcome::WaitError(_))) => UnitState::Error,
        (UnitState::ExitedFailure, Event::DelayElapsed) => UnitState::Spawning,
        (UnitState::Error, Event::DelayElapsed) => UnitState::Spawning,
        _ => state,
    }
}

/// What is to be done for a unit in `state` under `policy`.
pub open spec fn action_of(state: UnitState, policy: RestartPolicy) -> Action {
    match state {
        UnitState::Spawning => Action::Spawn,
        UnitState::Running => Action::Wait,
        UnitState::ExitedSuccess => Action::Stop,
        UnitState::ExitedFailure => Action::Sleep(policy.delay_secs),
        UnitState::Error => Action::Sleep(policy.delay_secs),
    }
}

/// `Task <id>: `, the start of every message about a task.
pub open spec fn task_prefix(task_id: nat) -> Seq<char> {
    "Task "@ + decimal(task_id) + ": "@
}

/// The message that goes before each start of a process.
pub open spec fn announce_text(command_line: Seq<char>) -> Seq<char> {
    "Spawning child from "@ + command_line
}

/// The severity and the text of what is logged when a unit of the given
/// task id and command line, in `state`, gets `event`: nothing for an event
/// that is ignored and for the end of a delay.
pub open spec fn report_of(
    state: UnitState,
    event: Event,
    task_id: nat,
    command_line: Seq<char>,
) -> Option<(LogLevel, Seq<char>)> {
    match (state, event) {
        (UnitState::Spawning, Event::Spawned) => Some(
            (LogLevel::Info, task_prefix(task_id) + "Spawned child from "@ + command_line),
        ),
        (UnitState::Spawning, Event::Ended(Outcome::SpawnFailure(cause))) => Some(
            (
                LogLevel::Error,
                task_prefix(task_id) + "Failed to spawn child from "@ + command_line
                    + " - Error: "@ + cause@,
            ),
        ),
        (UnitState::Running, Event::Ended(Outcome::Success)) => Some(
            (LogLevel::Info, task_prefix(task_id) + "Child exited successfully"@),
        ),
        (UnitState::Running, Event::Ended(Outcome::Failure(status))) => Some(
            (LogLevel::Warn, task_prefix(task_id) + "Child exited with status "@ + status@),
        ),
        (UnitState::Running, Event::Ended(Outcome::WaitError(cause))) => Some(
            (
                LogLevel::Error,
                task_prefix(task_id) + "Error waiting for child process: "@ + cause@,
            ),
        ),
        _ => None,
    }
}

/// The text of the outcome that stands for a command line without a program.
pub open spec fn no_program_text() -> Seq<char> {
    "command line names no program"@
}

/// One managed process with its identity, policy and state.
#[derive(Debug, Clone, PartialEq, Eq)]
pub struct SupervisedUnit {
    task_id: usize,
    command_line: String,
    policy: RestartPolicy,
    state: UnitState,
}

fn task_message(task_id: usize) -> (message: String)
    ensures
        message@ == task_prefix(task_id as nat),
{
    let mut message = String::from_str("Task ");
    push_decimal(&mut message, task_id as u64);
    message.append(": ");
    message
}

impl SupervisedUnit {
    /// The task id of the unit.
    pub closed spec fn id(&self) -> nat {
        self.task_id as nat
    }

    /// The command line of the unit.
    pub closed spec fn command(&self) -> Seq<char> {
        self.command_line@
    }

    /// The restart policy of the unit.
    pub closed spec fn restart_policy(&self) -> RestartPolicy {
        self.policy
    }

    /// The state of the unit.
    pub closed spec fn current(&self) -> UnitState {
        self.state
    }

    /// A unit for `command_line` under `task_id`, about to start its first
    /// process.
    pub fn new(task_id: usize, command_line: String, policy: RestartPolicy) -> (unit: Self)
        ensures
            unit.id() == task_id,
            unit.command() == command_line@,
            unit.restart_policy() == policy,
            unit.current() == UnitState::Spawning,
    {
        SupervisedUnit { task_id, command_line, policy, state: UnitState::Spawning }
    }

    /// The task id of the unit.
    pub fn task_id(&self) -> (task_id: usize)
        ensures
            task_id == self.id(),
    {
        self.task_id
    }

    /// The command line of the unit.
    pub fn command_line(&self) -> (command_line: &str)
        ensures
            command_line@ == self.command(),
    {
        self.command_line.as_str()
    }

    /// The restart policy of the unit.
    pub fn policy(&self) -> (policy: RestartPolicy)
        ensures
            policy == self.restart_policy(),
    {
        self.policy
    }

    /// The state of the unit.
    pub fn state(&self) -> (state: UnitState)
        ensures
            state == self.current(),
    {
        self.state
    }

    /// Tells whether the unit is done for good.
    pub fn is_finished(&self) -> (done: bool)
        ensures
            done == (self.current() == UnitState::ExitedSuccess),
    {
        self.state == UnitState::ExitedSuccess
    }

    /// What the caller is to do next for the unit.
    pub fn next_action(&self) -> (action: Action)
        ensures
            action == action_of(self.current(), self.restart_policy()),
    {
        match self.state {
            UnitState::Spawning => Action::Spawn,
            UnitState::Running => Action::Wait,
            UnitState::ExitedSuccess => Action::Stop,
            UnitState::ExitedFailure => Action::Sleep(self.policy.delay_secs),
            UnitState::Error => Action::Sleep(self.policy.delay_secs),
        }
    }

    /// The entry to log before each start of the unit's process.
    pub fn announce(&self) -> (entry: LogEntry)
        ensures
            entry.level == LogLevel::Info,
            entry.message@ == announce_text(self.command()),
    {
        let mut message = String::from_str("Spawning child from ");
        message.append(self.command_line.as_str());
        LogEntry { level: LogLevel::Info, message }
    }

    /// What to start for the unit: the program and arguments of its command
    /// line, or, where the line names no program, the failure to report in
    /// place of a start.
    pub fn spawn_plan(&self) -> (plan: Result<CommandLine, Outcome>)
        ensures
            plan is Err <==> is_blank(self.command()),
            plan matches Ok(c) ==> c.words() == words_of(self.command()),
            plan matches Err(o) ==> (o matches Outcome::SpawnFailure(cause) && cause@
                == no_program_text()),
    {
        match parse_command_line(self.command_line.as_str()) {
            Some(command) => Ok(command),
            None => Err(
                Outcome::SpawnFailure(String::from_str("command line names no program")),
            ),
        }
    }

    /// Takes in what happened and moves the unit on. An event that the unit
    /// does not expect in its state changes nothing. Hands back what is to
    /// be logged, if anything.
    pub fn handle(&mut self, event: &Event) -> (entry: Option<LogEntry>)
        ensures
            final(self).current() == step(old(self).current(), *event),
            final(self).id() == old(self).id(),
            final(self).command() == old(self).command(),
            final(self).restart_policy() == old(self).restart_policy(),
            match report_of(old(self).current(), *event, old(self).id(), old(self).command()) {
                Some((level, text)) => entry matches Some(e) && e.level == level && e.message@
                    == text,
                None => entry is None,
            },
    {
        match (self.state, event) {
            (UnitState::Spawning, Event::Spawned) => {
                let mut message = task_message(self.task_id);
                message.append("Spawned child from ");
                message.append(self.command_line.as_str());
                self.state = UnitState::Running;
                Some(LogEntry { level: LogLevel::Info, message })
            },
            (UnitState::Spawning, Event::Ended(Outcome::SpawnFailure(cause))) => {
                let mut message = task_message(self.task_id);
                message.append("Failed to spawn child from ");
                message.append(self.command_line.as_str());
                message.append(" - Error: ");
                message.append(cause.as_str());
                self.state = UnitState::Error;
                Some(LogEntry { level: LogLevel::Error, message })
            },
            (UnitState::Running, Event::Ended(Outcome::Success)) => {
                let mut message = task_message(self.task_id);
                message.append("Child exited successfully");
                self.state = UnitState::ExitedSuccess;
                Some(LogEntry { level: LogLevel::Info, message })
            },
            (UnitState::Running, Event::Ended(Outcome::Failure(status))) => {
                let mut message = task_message(self.task_id);
                message.append("Child exited with status ");
                message.append(status.as_str());
                self.state = UnitState::ExitedFailure;
                Some(LogEntry { level: LogLevel::Warn, message })
            },
            (UnitState::Running, Event::Ended(Outcome::WaitError(cause))) => {
                let mut message = task_message(self.task_id);
                message.append("Error waiting for child process: ");
                message.append(cause.as_str());
                self.state = UnitState::Error;
                Some(LogEntry { level: LogLevel::Error, message })
            },
            (UnitState::ExitedFailure, Event::DelayElapsed) => {
                self.state = UnitState::Spawning;
                None
            },
            (UnitState::Error, Event::DelayElapsed) => {
                self.state = UnitState::Spawning;
                None
            },
            _ => None,
        }
    }
}

} // verus!
