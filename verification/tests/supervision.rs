use sam_wd::level::LogLevel;
use sam_wd::logger::Logger;
use sam_wd::outcome::{Decision, Outcome, RestartPolicy};
use sam_wd::supervisor::{number_tasks, Supervisor};
use sam_wd::unit::{Action, Event, LogEntry, SupervisedUnit, UnitState};

fn unit(task_id: usize, command_line: &str, delay: u64) -> SupervisedUnit {
    SupervisedUnit::new(task_id, String::from(command_line), RestartPolicy::after(delay))
}

fn entry(level: LogLevel, message: &str) -> Option<LogEntry> {
    Some(LogEntry { level, message: String::from(message) })
}

fn failure(status: &str) -> Event {
    Event::Ended(Outcome::Failure(String::from(status)))
}

fn spawn_failure(cause: &str) -> Event {
    Event::Ended(Outcome::SpawnFailure(String::from(cause)))
}

fn wait_error(cause: &str) -> Event {
    Event::Ended(Outcome::WaitError(String::from(cause)))
}

#[test]
fn exit_code_zero_alone_is_success() {
    assert_eq!(Outcome::of_exit(Some(0), String::from("exit status: 0")), Outcome::Success);
    assert_eq!(
        Outcome::of_exit(Some(1), String::from("exit status: 1")),
        Outcome::Failure(String::from("exit status: 1"))
    );
    assert_eq!(
        Outcome::of_exit(Some(-1), String::from("exit status: 255")),
        Outcome::Failure(String::from("exit status: 255"))
    );
    assert_eq!(
        Outcome::of_exit(None, String::from("signal: 9 (SIGKILL)")),
        Outcome::Failure(String::from("signal: 9 (SIGKILL)"))
    );
    assert!(Outcome::Success.is_success());
    assert!(!Outcome::Failure(String::new()).is_success());
    assert!(!Outcome::WaitError(String::new()).is_success());
    assert!(!Outcome::SpawnFailure(String::new()).is_success());
}

#[test]
fn policy_stops_on_success_and_restarts_otherwise() {
    let policy = RestartPolicy::after(60);
    assert_eq!(policy.delay_secs, 60);
    assert_eq!(policy.decide(&Outcome::Success), Decision::Stop);
    assert_eq!(policy.decide(&Outcome::Failure(String::from("1"))), Decision::RestartAfter(60));
    assert_eq!(policy.decide(&Outcome::WaitError(String::from("e"))), Decision::RestartAfter(60));
    assert_eq!(
        policy.decide(&Outcome::SpawnFailure(String::from("e"))),
        Decision::RestartAfter(60)
    );
    let at_once = RestartPolicy::immediate();
    assert_eq!(at_once.delay_secs, 0);
    assert_eq!(at_once.decide(&Outcome::Failure(String::from("1"))), Decision::RestartAfter(0));
    assert_eq!(at_once.decide(&Outcome::Success), Decision::Stop);
}

#[test]
fn new_unit_is_about_to_spawn() {
    let u = unit(3, "./sam_rep -f rep.log", 60);
    assert_eq!(u.task_id(), 3);
    assert_eq!(u.command_line(), "./sam_rep -f rep.log");
    assert_eq!(u.policy(), RestartPolicy::after(60));
    assert_eq!(u.state(), UnitState::Spawning);
    assert_eq!(u.next_action(), Action::Spawn);
    assert!(!u.is_finished());
}

#[test]
fn announce_names_the_command_line() {
    let u = unit(1, "./sam_dap", 60);
    assert_eq!(u.announce(), LogEntry {
        level: LogLevel::Info,
        message: String::from("Spawning child from ./sam_dap"),
    });
}

#[test]
fn spawn_plan_parts_the_command_line() {
    let u = unit(1, " /bin/sh -c  true ", 60);
    let plan = u.spawn_plan().unwrap();
    assert_eq!(plan.program, "/bin/sh");
    assert_eq!(plan.args, vec![String::from("-c"), String::from("true")]);
}

#[test]
fn spawn_plan_of_blank_command_line_is_a_spawn_failure() {
    let u = unit(1, "   ", 60);
    assert_eq!(
        u.spawn_plan(),
        Err(Outcome::SpawnFailure(String::from("command line names no program")))
    );
    let mut u = unit(1, "", 0);
    let outcome = u.spawn_plan().unwrap_err();
    let logged = u.handle(&Event::Ended(outcome));
    assert_eq!(
        logged,
        entry(
            LogLevel::Error,
            "Task 1: Failed to spawn child from  - Error: command line names no program"
        )
    );
    assert_eq!(u.state(), UnitState::Error);
}

#[test]
fn clean_exit_is_terminal_and_never_respawned() {
    let mut u = unit(1, "cmd_a", 60);
    assert_eq!(u.handle(&Event::Spawned), entry(LogLevel::Info, "Task 1: Spawned child from cmd_a"));
    assert_eq!(u.state(), UnitState::Running);
    assert_eq!(u.next_action(), Action::Wait);
    let logged = u.handle(&Event::Ended(Outcome::of_exit(Some(0), String::from("exit status: 0"))));
    assert_eq!(logged, entry(LogLevel::Info, "Task 1: Child exited successfully"));
    assert_eq!(u.state(), UnitState::ExitedSuccess);
    assert_eq!(u.next_action(), Action::Stop);
    assert!(u.is_finished());
    let events = [
        Event::Spawned,
        Event::DelayElapsed,
        Event::Ended(Outcome::Success),
        failure("exit status: 1"),
        wait_error("lost"),
        spawn_failure("missing"),
    ];
    for _ in 0..3 {
        for event in events.iter() {
            assert_eq!(u.handle(event), None);
            assert_eq!(u.state(), UnitState::ExitedSuccess);
            assert_eq!(u.next_action(), Action::Stop);
        }
    }
}

#[test]
fn abnormal_exit_is_respawned_again_and_again() {
    let mut u = unit(2, "cmd_b --flag", 60);
    let mut spawns: u32 = 0;
    let mut warnings: u32 = 0;
    for _ in 0..5 {
        assert_eq!(u.next_action(), Action::Spawn);
        assert_eq!(u.command_line(), "cmd_b --flag");
        spawns += 1;
        assert_eq!(
            u.handle(&Event::Spawned),
            entry(LogLevel::Info, "Task 2: Spawned child from cmd_b --flag")
        );
        assert_eq!(u.next_action(), Action::Wait);
        let ended = Event::Ended(Outcome::of_exit(Some(1), String::from("ExitStatus(256)")));
        let logged = u.handle(&ended);
        assert_eq!(logged, entry(LogLevel::Warn, "Task 2: Child exited with status ExitStatus(256)"));
        warnings += 1;
        assert_eq!(u.state(), UnitState::ExitedFailure);
        assert_eq!(u.next_action(), Action::Sleep(60));
        assert_eq!(u.handle(&Event::DelayElapsed), None);
        assert_eq!(u.state(), UnitState::Spawning);
    }
    assert!(spawns >= 3);
    assert_eq!(warnings, 5);
    assert_eq!(u.next_action(), Action::Spawn);
    assert!(!u.is_finished());
}

#[test]
fn missing_executable_is_retried_and_logged_as_error() {
    let mut u = unit(7, "./no_such_binary", 0);
    let mut attempts: u32 = 0;
    for _ in 0..4 {
        assert_eq!(u.next_action(), Action::Spawn);
        attempts += 1;
        let logged = u.handle(&spawn_failure("Os { code: 2, kind: NotFound }"));
        assert_eq!(
            logged,
            entry(
                LogLevel::Error,
                "Task 7: Failed to spawn child from ./no_such_binary - Error: Os { code: 2, kind: NotFound }"
            )
        );
        assert_eq!(u.state(), UnitState::Error);
        assert_eq!(u.next_action(), Action::Sleep(0));
        assert_eq!(u.handle(&Event::DelayElapsed), None);
        assert_eq!(u.state(), UnitState::Spawning);
    }
    assert!(attempts >= 3);
}

#[test]
fn wait_error_is_logged_as_error_and_restarts() {
    let mut u = unit(12, "./sam_dap", 5);
    u.handle(&Event::Spawned);
    let logged = u.handle(&wait_error("Os { code: 10, kind: Uncategorized }"));
    assert_eq!(
        logged,
        entry(
            LogLevel::Error,
            "Task 12: Error waiting for child process: Os { code: 10, kind: Uncategorized }"
        )
    );
    assert_eq!(u.state(), UnitState::Error);
    assert_eq!(u.next_action(), Action::Sleep(5));
    assert_eq!(u.handle(&Event::DelayElapsed), None);
    assert_eq!(u.next_action(), Action::Spawn);
}

#[test]
fn unexpected_events_change_nothing() {
    let mut u = unit(1, "x", 1);
    for event in [Event::DelayElapsed, Event::Ended(Outcome::Success), failure("1"), wait_error("e")] {
        assert_eq!(u.handle(&event), None);
        assert_eq!(u.state(), UnitState::Spawning);
    }
    u.handle(&Event::Spawned);
    for event in [Event::Spawned, Event::DelayElapsed, spawn_failure("e")] {
        assert_eq!(u.handle(&event), None);
        assert_eq!(u.state(), UnitState::Running);
    }
    u.handle(&failure("1"));
    for event in [Event::Spawned, Event::Ended(Outcome::Success), failure("1"), spawn_failure("e")] {
        assert_eq!(u.handle(&event), None);
        assert_eq!(u.state(), UnitState::ExitedFailure);
    }
    u.handle(&Event::DelayElapsed);
    u.handle(&spawn_failure("e"));
    for event in [Event::Spawned, Event::Ended(Outcome::Success), wait_error("e")] {
        assert_eq!(u.handle(&event), None);
        assert_eq!(u.state(), UnitState::Error);
    }
    assert_eq!(u.task_id(), 1);
    assert_eq!(u.command_line(), "x");
}

#[test]
fn task_ids_are_written_in_decimal() {
    let mut u = unit(1234567, "x", 1);
    assert_eq!(u.handle(&Event::Spawned), entry(LogLevel::Info, "Task 1234567: Spawned child from x"));
    let mut z = unit(0, "y z", 1);
    assert_eq!(z.handle(&Event::Spawned), entry(LogLevel::Info, "Task 0: Spawned child from y z"));
}

#[test]
fn tasks_are_numbered_from_one() {
    let commands = vec![String::from("./sam_dap"), String::from("./sam_rep")];
    assert_eq!(
        number_tasks(&commands),
        vec![(1usize, String::from("./sam_dap")), (2usize, String::from("./sam_rep"))]
    );
    assert_eq!(number_tasks(&Vec::new()), Vec::<(usize, String)>::new());
}

#[test]
fn supervisor_makes_one_fresh_unit_per_entry() {
    let config = vec![(1usize, String::from("./sam_dap")), (2usize, String::from("./sam_rep -v"))];
    let supervisor = Supervisor::new(&config, RestartPolicy::after(60));
    assert_eq!(supervisor.unit_count(), 2);
    assert_eq!(supervisor.startup_entry(), LogEntry {
        level: LogLevel::Info,
        message: String::from("Supervising 2 tasks"),
    });
    let units = supervisor.into_units();
    assert_eq!(units, vec![unit(1, "./sam_dap", 60), unit(2, "./sam_rep -v", 60)]);
    for u in units.iter() {
        assert_eq!(u.state(), UnitState::Spawning);
    }
}

#[test]
fn supervisor_of_nothing_has_no_units() {
    let supervisor = Supervisor::new(&Vec::new(), RestartPolicy::immediate());
    assert_eq!(supervisor.unit_count(), 0);
    assert_eq!(supervisor.startup_entry().message, "Supervising 0 tasks");
    assert!(supervisor.into_units().is_empty());
}

#[test]
fn two_units_one_clean_one_failing() {
    let logger = Logger::new(LogLevel::Info, 100);
    let commands = vec![String::from("cmd_a"), String::from("cmd_b")];
    let supervisor = Supervisor::new(&number_tasks(&commands), RestartPolicy::immediate());
    let mut units = supervisor.into_units();
    let mut lines: Vec<String> = Vec::new();
    let mut write = |e: Option<LogEntry>| {
        if let Some(e) = e {
            if let Some(made) = logger.log(e.level, e.message) {
                let line = made.render();
                let stamped = format!("[{}][PID 100]", made.timestamp);
                assert!(line.starts_with(&stamped));
                lines.push(String::from(&line[stamped.len()..]));
            }
        }
    };
    let mut rounds: u32 = 0;
    while rounds < 10 {
        for u in units.iter_mut() {
            loop {
                match u.next_action() {
                    Action::Stop => break,
                    Action::Spawn => {
                        write(Some(u.announce()));
                        assert!(u.spawn_plan().is_ok());
                        write(u.handle(&Event::Spawned));
                    }
                    Action::Wait => {
                        let code: i32 = if u.command_line() == "cmd_a" { 0 } else { 1 };
                        let status = format!("ExitStatus({})", code * 256);
                        write(u.handle(&Event::Ended(Outcome::of_exit(Some(code), status))));
                    }
                    Action::Sleep(secs) => {
                        assert_eq!(secs, 0);
                        write(u.handle(&Event::DelayElapsed));
                        break;
                    }
                }
            }
        }
        rounds += 1;
    }
    let clean = "[INFO][100] Task 1: Child exited successfully\n";
    let abnormal = "[WARN][100] Task 2: Child exited with status ExitStatus(256)\n";
    assert_eq!(lines.iter().filter(|l| l.as_str() == clean).count(), 1);
    assert_eq!(lines.iter().filter(|l| l.as_str() == abnormal).count(), 10);
    assert_eq!(
        lines.iter().filter(|l| l.as_str() == "[INFO][100] Task 1: Spawned child from cmd_a\n").count(),
        1
    );
    assert_eq!(
        lines.iter().filter(|l| l.as_str() == "[INFO][100] Task 2: Spawned child from cmd_b\n").count(),
        10
    );
    assert_eq!(
        lines.iter().filter(|l| l.as_str() == "[INFO][100] Spawning child from cmd_a\n").count(),
        1
    );
    assert!(units[0].is_finished());
    assert!(!units[1].is_finished());
    assert_eq!(units[1].next_action(), Action::Spawn);
}
