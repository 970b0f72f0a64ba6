//! What holds of a supervised unit over any run of events.

use crate::level::LogLevel;
use crate::outcome::{Decision, Outcome, RestartPolicy};
use crate::unit::{accepts, action_of, report_of, step, Action, Event, UnitState};
use vstd::prelude::*;

verus! {

/// The state of a unit that started in `state` and got `events` in turn.
pub open spec fn run(state: UnitState, events: Seq<Event>) -> UnitState
    decreases events.len(),
{
    if events.len() == 0 {
        state
    } else {
        step(run(state, events.drop_last()), events.last())
    }
}

/// How many starts of a process the caller reported along `events`, to a
/// unit that began in `state`: the events that the unit took while it was
/// spawning, one for each start that was tried.
pub open spec fn spawn_attempts(state: UnitState, events: Seq<Event>) -> nat
    decreases events.len(),
{
    if events.len() == 0 {
        0
    } else {
        let before = run(state, events.drop_last());
        let tried: nat = if before == UnitState::Spawning && accepts(before, events.last()) {
            1
        } else {
            0
        };
        spawn_attempts(state, events.drop_last()) + tried
    }
}

/// `round`, `times` times over.
pub open spec fn repeated(round: Seq<Event>, times: nat) -> Seq<Event>
    decreases times,
{
    if times == 0 {
        Seq::empty()
    } else {
        repeated(round, (times - 1) as nat) + round
    }
}

/// One round of a process that starts and leaves without success.
pub open spec fn failing_round(status: String) -> Seq<Event> {
    seq![Event::Spawned, Event::Ended(Outcome::Failure(status)), Event::DelayElapsed]
}

/// One round of a process that cannot be started.
pub open spec fn unstartable_round(cause: String) -> Seq<Event> {
    seq![Event::Ended(Outcome::SpawnFailure(cause)), Event::DelayElapsed]
}

/// One round of a process whose end cannot be observed.
pub open spec fn unobserved_round(cause: String) -> Seq<Event> {
    seq![Event::Spawned, Event::Ended(Outcome::WaitError(cause)), Event::DelayElapsed]
}

/// Running a unit over two runs of events, one after the other, is running
/// it over the first and going on from there over the second; the starts
/// add up.
pub proof fn lemma_run_in_two(state: UnitState, first: Seq<Event>, second: Seq<Event>)
    ensures
        run(state, first + second) == run(run(state, first), second),
        spawn_attempts(state, first + second) == spawn_attempts(state, first) + spawn_attempts(
            run(state, first),
            second,
        ),
    decreases second.len(),
{
    if second.len() == 0 {
        assert(first + second =~= first);
    } else {
        assert((first + second).drop_last() =~= first + second.drop_last());
        assert((first + second).last() == second.last());
        lemma_run_in_two(state, first, second.drop_last());
    }
}

/// What a run of three events does, step by step.
proof fn lemma_run_of_three(state: UnitState, a: Event, b: Event, c: Event)
    ensures
        run(state, seq![a, b, c]) == step(step(step(state, a), b), c),
        spawn_attempts(state, seq![a, b, c]) == (if state == UnitState::Spawning && accepts(
            state,
            a,
        ) {
            1nat
        } else {
            0nat
        }) + (if step(state, a) == UnitState::Spawning && accepts(step(state, a), b) {
            1nat
        } else {
            0nat
        }) + (if step(step(state, a), b) == UnitState::Spawning && accepts(
            step(step(state, a), b),
            c,
        ) {
            1nat
        } else {
            0nat
        }),
{
    let s3 = seq![a, b, c];
    let s2 = seq![a, b];
    let s1 = seq![a];
    assert(s3.drop_last() =~= s2);
    assert(s2.drop_last() =~= s1);
    let s0 = Seq::<Event>::empty();
    assert(s1.drop_last() =~= s0);
    assert(run(state, s0) == state);
    assert(spawn_attempts(state, s0) == 0);
    assert(run(state, s1) == step(state, a));
    assert(run(state, s2) == step(step(state, a), b));
    assert(spawn_attempts(state, s1) == spawn_attempts(state, s0) + (if state
        == UnitState::Spawning && accepts(state, a) {
        1nat
    } else {
        0nat
    }));
    assert(spawn_attempts(state, s2) == spawn_attempts(state, s1) + (if step(state, a)
        == UnitState::Spawning && accepts(step(state, a), b) {
        1nat
    } else {
        0nat
    }));
}

/// What a run of two events does, step by step.
proof fn lemma_run_of_two(state: UnitState, a: Event, b: Event)
    ensures
        run(state, seq![a, b]) == step(step(state, a), b),
        spawn_attempts(state, seq![a, b]) == (if state == UnitState::Spawning && accepts(
            state,
            a,
        ) {
            1nat
        } else {
            0nat
        }) + (if step(state, a) == UnitState::Spawning && accepts(step(state, a), b) {
            1nat
        } else {
            0nat
        }),
{
    let s2 = seq![a, b];
    let s1 = seq![a];
    assert(s2.drop_last() =~= s1);
    let s0 = Seq::<Event>::empty();
    assert(s1.drop_last() =~= s0);
    assert(run(state, s0) == state);
    assert(spawn_attempts(state, s0) == 0);
    assert(run(state, s1) == step(state, a));
    assert(spawn_attempts(state, s1) == spawn_attempts(state, s0) + (if state
        == UnitState::Spawning && accepts(state, a) {
        1nat
    } else {
        0nat
    }));
}

/// The policy stops a unit after a success and after nothing else, and a
/// unit is told to stop in the state of success and in no other.
pub proof fn lemma_stop_means_success(policy: RestartPolicy, outcome: Outcome, state: UnitState)
    ensures
        policy.decision(outcome) == Decision::Stop <==> outcome is Success,
        !(outcome is Success) ==> policy.decision(outcome) == Decision::RestartAfter(
            policy.delay_secs,
        ),
        action_of(state, policy) == Action::Stop <==> state == UnitState::ExitedSuccess,
        action_of(state, policy) == Action::Spawn <==> state == UnitState::Spawning,
{
}

/// A process that leaves with status zero ends its unit: the unit goes from
/// running to the state of success and is told to stop. The end is logged
/// as information.
pub proof fn lemma_clean_exit_ends_unit(
    status: String,
    policy: RestartPolicy,
    task_id: nat,
    command_line: Seq<char>,
)
    ensures
        Outcome::classify(Some(0i32), status) == Outcome::Success,
        step(UnitState::Running, Event::Ended(Outcome::Success)) == UnitState::ExitedSuccess,
        action_of(UnitState::ExitedSuccess, policy) == Action::Stop,
        report_of(
            UnitState::Running,
            Event::Ended(Outcome::Success),
            task_id,
            command_line,
        ) matches Some((level, _)) && level == LogLevel::Info,
{
}

/// A unit that has ended in success stays there whatever it is told, and no
/// process is started for it again.
pub proof fn lemma_success_is_final(events: Seq<Event>)
    ensures
        run(UnitState::ExitedSuccess, events) == UnitState::ExitedSuccess,
        spawn_attempts(UnitState::ExitedSuccess, events) == 0,
    decreases events.len(),
{
    if events.len() > 0 {
        lemma_success_is_final(events.drop_last());
    }
}

/// A unit ends only by a success: if it stands in the state of success
/// after `events`, one of them reported a process that left with success.
pub proof fn lemma_only_success_ends_unit(state: UnitState, events: Seq<Event>)
    requires
        state != UnitState::ExitedSuccess,
        run(state, events) == UnitState::ExitedSuccess,
    ensures
        exists|i: int|
            0 <= i < events.len() && #[trigger] events[i] == Event::Ended(Outcome::Success),
    decreases events.len(),
{
    if events.len() > 0 {
        let rest = events.drop_last();
        if run(state, rest) == UnitState::ExitedSuccess {
            lemma_only_success_ends_unit(state, rest);
            let i = choose|i: int|
                0 <= i < rest.len() && #[trigger] rest[i] == Event::Ended(Outcome::Success);
            assert(events[i] == rest[i]);
        } else {
            assert(events[events.len() - 1] == Event::Ended(Outcome::Success));
        }
    }
}

/// A process that leaves with another status than zero is followed by a
/// new one: the unit goes from running to the state of failure, is told to
/// let the policy's delay pass, then stands at spawning again and is told to
/// start a process. The end is logged as a warning.
pub proof fn lemma_failure_restarts(
    code: Option<i32>,
    status: String,
    policy: RestartPolicy,
    task_id: nat,
    command_line: Seq<char>,
)
    requires
        code != Some(0i32),
    ensures
        Outcome::classify(code, status) == Outcome::Failure(status),
        step(UnitState::Running, Event::Ended(Outcome::Failure(status)))
            == UnitState::ExitedFailure,
        action_of(UnitState::ExitedFailure, policy) == Action::Sleep(policy.delay_secs),
        step(UnitState::ExitedFailure, Event::DelayElapsed) == UnitState::Spawning,
        action_of(UnitState::Spawning, policy) == Action::Spawn,
        report_of(
            UnitState::Running,
            Event::Ended(Outcome::Failure(status)),
            task_id,
            command_line,
        ) matches Some((level, _)) && level == LogLevel::Warn,
{
}

/// A process that cannot be started, and one whose end cannot be observed,
/// are followed by a new one as a failure is: through the state of error
/// and the policy's delay back to spawning. Both are logged as errors.
pub proof fn lemma_error_restarts(
    cause: String,
    policy: RestartPolicy,
    task_id: nat,
    command_line: Seq<char>,
)
    ensures
        step(UnitState::Spawning, Event::Ended(Outcome::SpawnFailure(cause)))
            == UnitState::Error,
        step(UnitState::Running, Event::Ended(Outcome::WaitError(cause))) == UnitState::Error,
        action_of(UnitState::Error, policy) == Action::Sleep(policy.delay_secs),
        step(UnitState::Error, Event::DelayElapsed) == UnitState::Spawning,
        action_of(UnitState::Spawning, policy) == Action::Spawn,
        report_of(
            UnitState::Spawning,
            Event::Ended(Outcome::SpawnFailure(cause)),
            task_id,
            command_line,
        ) matches Some((level, _)) && level == LogLevel::Error,
        report_of(
            UnitState::Running,
            Event::Ended(Outcome::WaitError(cause)),
            task_id,
            command_line,
        ) matches Some((level, _)) && level == LogLevel::Error,
{
}

/// However often a process fails, it is started again: after any number of
/// rounds of a process that starts and leaves without success, the unit
/// stands at spawning, and one start was made in each round.
pub proof fn lemma_failing_rounds(status: String, rounds: nat)
    ensures
        run(UnitState::Spawning, repeated(failing_round(status), rounds)) == UnitState::Spawning,
        spawn_attempts(UnitState::Spawning, repeated(failing_round(status), rounds)) == rounds,
    decreases rounds,
{
    if rounds > 0 {
        let done = repeated(failing_round(status), (rounds - 1) as nat);
        lemma_failing_rounds(status, (rounds - 1) as nat);
        lemma_run_in_two(UnitState::Spawning, done, failing_round(status));
        lemma_run_of_three(
            UnitState::Spawning,
            Event::Spawned,
            Event::Ended(Outcome::Failure(status)),
            Event::DelayElapsed,
        );
    }
}

/// However often a process cannot be started, the start is tried again:
/// after any number of rounds of a start that fails, the unit stands at
/// spawning, and one start was tried in each round.
pub proof fn lemma_unstartable_rounds(cause: String, rounds: nat)
    ensures
        run(UnitState::Spawning, repeated(unstartable_round(cause), rounds))
            == UnitState::Spawning,
        spawn_attempts(UnitState::Spawning, repeated(unstartable_round(cause), rounds))
            == rounds,
    decreases rounds,
{
    if rounds > 0 {
        let done = repeated(unstartable_round(cause), (rounds - 1) as nat);
        lemma_unstartable_rounds(cause, (rounds - 1) as nat);
        lemma_run_in_two(UnitState::Spawning, done, unstartable_round(cause));
        lemma_run_of_two(
            UnitState::Spawning,
            Event::Ended(Outcome::SpawnFailure(cause)),
            Event::DelayElapsed,
        );
    }
}

/// However often the end of a process cannot be observed, a process is
/// started again: after any number of such rounds the unit stands at
/// spawning, and one start was made in each round.
pub proof fn lemma_unobserved_rounds(cause: String, rounds: nat)
    ensures
        run(UnitState::Spawning, repeated(unobserved_round(cause), rounds))
            == UnitState::Spawning,
        spawn_attempts(UnitState::Spawning, repeated(unobserved_round(cause), rounds))
            == rounds,
    decreases rounds,
{
    if rounds > 0 {
        let done = repeated(unobserved_round(cause), (rounds - 1) as nat);
        lemma_unobserved_rounds(cause, (rounds - 1) as nat);
        lemma_run_in_two(UnitState::Spawning, done, unobserved_round(cause));
        lemma_run_of_three(
            UnitState::Spawning,
            Event::Spawned,
            Event::Ended(Outcome::WaitError(cause)),
            Event::DelayElapsed,
        );
    }
}

/// No unit has two processes at once. A process is alive only while its
/// unit is running: the unit takes the news of a start only while it is
/// spawning, is told to start a process only then, and leaves the state of
/// running only when the process has ended.
pub proof fn lemma_one_process_at_a_time(state: UnitState, event: Event, policy: RestartPolicy)
    ensures
        accepts(state, Event::Spawned) <==> state == UnitState::Spawning,
        action_of(state, policy) == Action::Spawn <==> state == UnitState::Spawning,
        state != UnitState::Running && step(state, event) == UnitState::Running ==> state
            == UnitState::Spawning && event == Event::Spawned,
        state == UnitState::Running && step(state, event) != UnitState::Running
            ==> event is Ended,
{
}

} // verus!
