//! How a managed process ended, and what follows from it.

use vstd::prelude::*;

verus! {

/// How one run of a managed process ended. The texts are the system's own
/// words for a status or a failure; nothing is read out of them.
#[derive(Debug, Clone, PartialEq, Eq)]
pub enum Outcome {
    /// The process ran and left with status zero.
    Success,
    /// The process ran and left with another status, or was killed.
    Failure(String),
    /// The process ran, but its end could not be observed.
    WaitError(String),
    /// The process could not be started.
    SpawnFailure(String),
}

/// What the supervisor does with a unit after one of its runs.
#[derive(Debug, Clone, Copy, PartialEq, Eq, Structural)]
pub enum Decision {
    /// The unit is done for good.
    Stop,
    /// The unit is started again, not sooner than after so many seconds.
    RestartAfter(u64),
}

/// The restart policy: every run that did not end in success is followed by
/// another, without a cap on their number, after a fixed delay.
#[derive(Debug, Clone, Copy, PartialEq, Eq, Structural)]
pub struct RestartPolicy {
    /// Least time between the end of a run and the next start, in seconds.
    pub delay_secs: u64,
}

impl Outcome {
    /// The outcome of a process that left with `code`, where no code means
    /// that a signal ended it: success for the code zero alone.
    pub open spec fn classify(code: Option<i32>, status: String) -> Outcome {
        if code == Some(0i32) {
            Outcome::Success
        } else {
            Outcome::Failure(status)
        }
    }

    /// Classifies the end of a process by its exit code; `status` is kept
    /// for the log where the end was not a success.
    pub fn of_exit(code: Option<i32>, status: String) -> (outcome: Outcome)
        ensures
            outcome == Outcome::classify(code, status),
    {
        match code {
            Some(0) => Outcome::Success,
            _ => Outcome::Failure(status),
        }
    }

    /// Tells whether the outcome is a success.
    pub fn is_success(&self) -> (b: bool)
        ensures
            b == (self is Success),
    {
        match self {
            Outcome::Success => true,
            _ => false,
        }
    }
}

impl RestartPolicy {
    /// What the policy decides for an outcome.
    pub open spec fn decision(self, outcome: Outcome) -> Decision {
        match outcome {
            Outcome::Success => Decision::Stop,
            _ => Decision::RestartAfter(self.delay_secs),
        }
    }

    /// The policy that restarts at once.
    pub fn immediate() -> (policy: RestartPolicy)
        ensures
            policy.delay_secs == 0,
    {
        RestartPolicy { delay_secs: 0 }
    }

    /// The policy that waits `delay_secs` seconds before each restart.
    pub fn after(delay_secs: u64) -> (policy: RestartPolicy)
        ensures
            policy.delay_secs == delay_secs,
    {
        RestartPolicy { delay_secs }
    }

    /// Decides what follows a run that ended in `outcome`: a success stops
    /// the unit, anything else restarts it after the policy's delay.
    pub fn decide(&self, outcome: &Outcome) -> (decision: Decision)
        ensures
            decision == self.decision(*outcome),
    {
        match outcome {
            Outcome::Success => Decision::Stop,
            _ => Decision::RestartAfter(self.delay_secs),
        }
    }
}

} // verus!
