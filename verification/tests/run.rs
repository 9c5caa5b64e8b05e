use command_executor::command::{Command, Stdio};
use command_executor::configurator::{CommandConfigurator, StdCommandConfigurator};
use command_executor::error::{Error, NOT_PIPED};
use command_executor::executor::CommandExecutor;
use command_executor::handle::Handle;
use command_executor::run::{exit_kind, Action, Event, ExitKind, Phase, RunError};
use command_executor::spawn::{IoFailure, SpawnPlan, SpawnProgress, SpawnStep};
use std::time::Duration;

type StdExecutor = CommandExecutor<(), (), StdCommandConfigurator>;
type StdAction = Action<SpawnPlan, Error, &'static str>;

fn observed(stdout: bool, stderr: bool) -> StdExecutor {
    let mut builder = CommandExecutor::builder();
    builder.program(b"ls");
    if stdout {
        builder.stdout_observer(Handle::new("out".to_string()));
    }
    if stderr {
        builder.stderr_observer(Handle::new("err".to_string()));
    }
    builder.build(()).unwrap()
}

/// Runs `executor` on these events and returns the last action.
fn drive(executor: &mut StdExecutor, events: Vec<Event<&'static str>>) -> (Phase, StdAction) {
    let mut executions = 0u64;
    let mut step = executor.run_target::<Vec<u8>, &'static str>(&mut executions);
    for event in events {
        assert!(step.0.accepts(&event));
        step = executor.resume(&b"in".to_vec(), step.0, event);
    }
    step
}

fn started() -> Vec<Event<&'static str>> {
    vec![Event::Succeeded, Event::Succeeded]
}

#[test]
fn signals_tell_the_exit_kind() {
    assert_eq!(exit_kind(None), ExitKind::Normal);
    assert_eq!(exit_kind(Some(9)), ExitKind::Oom);
    assert_eq!(exit_kind(Some(11)), ExitKind::Crash);
    assert_eq!(exit_kind(Some(6)), ExitKind::Crash);
    assert_eq!(exit_kind(Some(-9)), ExitKind::Crash);
}

#[test]
fn every_run_is_counted() {
    let executor = observed(false, false);
    let mut executions = 41u64;
    executor.run_target::<Vec<u8>, ()>(&mut executions);
    assert_eq!(executions, 42);
}

#[test]
fn a_failing_hook_ends_the_run_before_the_child_starts() {
    let mut executor = observed(true, true);
    let (phase, action) = drive(&mut executor, vec![Event::Failed("hook")]);
    assert!(matches!(phase, Phase::Finished));
    assert!(matches!(action, Action::Return(Err(RunError::Outside("hook")))));
    assert!(!phase.accepts(&Event::<&str>::Succeeded));
}

#[test]
fn a_child_that_cannot_start_ends_the_run() {
    let mut executor = observed(true, true);
    let (_, action) = drive(&mut executor, vec![Event::Succeeded, Event::Failed("spawn")]);
    assert!(matches!(action, Action::Return(Err(RunError::Outside("spawn")))));
}

#[test]
fn a_slow_child_is_killed_and_reaped() {
    let mut executor = observed(false, false);
    let mut events = started();
    events.push(Event::TimedOut);
    assert!(matches!(drive(&mut executor, events).1, Action::Kill));

    let mut events = started();
    events.extend([Event::TimedOut, Event::Failed("gone")]);
    assert!(matches!(drive(&mut executor, events).1, Action::Reap));

    let mut events = started();
    events.extend([Event::TimedOut, Event::Failed("gone"), Event::Failed("gone")]);
    assert!(matches!(drive(&mut executor, events).1, Action::PostExec(ExitKind::Timeout)));

    let mut events = started();
    events.extend([Event::TimedOut, Event::Succeeded, Event::Succeeded, Event::Succeeded]);
    assert!(matches!(drive(&mut executor, events).1, Action::Return(Ok(ExitKind::Timeout))));
}

#[test]
fn a_failing_last_hook_ends_the_run() {
    let mut executor = observed(true, true);
    let mut events = started();
    events.extend([Event::Exited(Some(11)), Event::Failed("hook")]);
    let (_, action) = drive(&mut executor, events);
    assert!(matches!(action, Action::Return(Err(RunError::Outside("hook")))));
}

#[test]
fn observers_get_what_the_child_wrote() {
    let mut executor = observed(true, true);
    let mut events = started();
    events.extend([Event::Exited(Some(11)), Event::Succeeded]);
    assert!(matches!(drive(&mut executor, events).1, Action::ReadStdout));

    let mut events = started();
    events.extend([Event::Exited(Some(11)), Event::Succeeded, Event::Read(b"hello".to_vec())]);
    match drive(&mut executor, events).1 {
        Action::ObserveStdout(handle, bytes) => {
            assert_eq!(handle.name(), "out");
            assert_eq!(bytes, b"hello");
        }
        other => panic!("{:?}", other),
    }

    let mut events = started();
    events.extend([
        Event::Exited(Some(11)),
        Event::Succeeded,
        Event::Read(b"hello".to_vec()),
        Event::Succeeded,
        Event::Read(b"oops".to_vec()),
    ]);
    match drive(&mut executor, events).1 {
        Action::ObserveStderr(handle, bytes) => {
            assert_eq!(handle.name(), "err");
            assert_eq!(bytes, b"oops");
        }
        other => panic!("{:?}", other),
    }

    let mut events = started();
    events.extend([
        Event::Exited(Some(11)),
        Event::Succeeded,
        Event::Read(b"hello".to_vec()),
        Event::Succeeded,
        Event::Read(b"oops".to_vec()),
        Event::Succeeded,
    ]);
    assert!(matches!(drive(&mut executor, events).1, Action::Return(Ok(ExitKind::Crash))));
}

#[test]
fn only_the_standard_error_is_read_if_only_it_is_observed() {
    let mut executor = observed(false, true);
    let mut events = started();
    events.extend([Event::Exited(None), Event::Succeeded]);
    assert!(matches!(drive(&mut executor, events).1, Action::ReadStderr));

    let mut executor = observed(true, false);
    let mut events = started();
    events.extend([
        Event::Exited(None),
        Event::Succeeded,
        Event::Read(Vec::new()),
        Event::Succeeded,
    ]);
    assert!(matches!(drive(&mut executor, events).1, Action::Return(Ok(ExitKind::Normal))));
}

#[test]
fn an_observed_output_must_be_piped() {
    assert_eq!(
        NOT_PIPED,
        "Observer tries to read stderr, but stderr was not `Stdio::pipe` in CommandExecutor"
    );
    for stdout in [true, false] {
        let mut executor = observed(stdout, !stdout);
        let mut events = started();
        events.extend([Event::Exited(None), Event::Succeeded, Event::NotPiped]);
        match drive(&mut executor, events).1 {
            Action::Return(Err(RunError::Executor(error))) => {
                assert_eq!(error, Error::IllegalState(NOT_PIPED));
            }
            other => panic!("{:?}", other),
        }

        let mut events = started();
        events.extend([Event::Exited(None), Event::Succeeded, Event::Failed("read")]);
        let (_, action) = drive(&mut executor, events);
        assert!(matches!(action, Action::Return(Err(RunError::Outside("read")))));
    }
}

#[test]
fn a_plan_is_carried_out_in_order() {
    let mut builder = CommandExecutor::builder();
    builder.program(b"cat").arg_input_file(b"in");
    let mut executor: StdExecutor = builder.build(()).unwrap();
    let plan = executor.inner().spawn_child(&b"x".to_vec()).unwrap();
    assert_eq!(plan.first(), SpawnStep::WriteFile);
    let done: Result<(), IoFailure<u8>> = Ok(());
    assert!(matches!(plan.after(SpawnStep::WriteFile, done), SpawnProgress::Next(SpawnStep::Start)));
    let done: Result<(), IoFailure<u8>> = Ok(());
    assert!(matches!(plan.after(SpawnStep::Start, done), SpawnProgress::Spawned));
    for step in [SpawnStep::WriteFile, SpawnStep::Start] {
        let failed = Err(IoFailure { broken_pipe: true, error: 7u8 });
        assert!(matches!(plan.after(step, failed), SpawnProgress::Failed(7)));
    }
}

#[test]
fn a_child_may_close_its_standard_input() {
    let mut executor = observed(false, false);
    let plan = executor.inner().spawn_child(&b"x".to_vec()).unwrap();
    assert_eq!(plan.first(), SpawnStep::Start);
    let done: Result<(), IoFailure<u8>> = Ok(());
    assert!(matches!(plan.after(SpawnStep::Start, done), SpawnProgress::Next(SpawnStep::WriteStdin)));
    let done: Result<(), IoFailure<u8>> = Ok(());
    assert!(matches!(
        plan.after(SpawnStep::WriteStdin, done),
        SpawnProgress::Next(SpawnStep::FlushStdin)
    ));
    let done: Result<(), IoFailure<u8>> = Ok(());
    assert!(matches!(
        plan.after(SpawnStep::FlushStdin, done),
        SpawnProgress::Next(SpawnStep::CloseStdin)
    ));
    let done: Result<(), IoFailure<u8>> = Ok(());
    assert!(matches!(plan.after(SpawnStep::CloseStdin, done), SpawnProgress::Spawned));
    for step in [SpawnStep::WriteStdin, SpawnStep::FlushStdin] {
        let broken = Err(IoFailure { broken_pipe: true, error: 7u8 });
        assert!(matches!(plan.after(step, broken), SpawnProgress::Next(SpawnStep::CloseStdin)));
        let failed = Err(IoFailure { broken_pipe: false, error: 7u8 });
        assert!(matches!(plan.after(step, failed), SpawnProgress::Failed(7)));
    }
}

struct MyConfigurator {
    refuses: bool,
}

impl CommandConfigurator<String> for MyConfigurator {
    type Plan = SpawnPlan;
    type Error = String;

    fn spawn_child(&mut self, input: &String) -> Result<SpawnPlan, String> {
        if self.refuses {
            return Err(format!("no child for {}", input));
        }
        let mut command = Command::new(b"../if");
        command.stdin = Stdio::Piped;
        command.stdout = Stdio::Null;
        command.stderr = Stdio::Null;
        Ok(SpawnPlan { file: None, command, feeds_stdin: true })
    }

    fn exec_timeout(&self) -> Duration {
        Duration::from_secs(5)
    }
}

/// Sets its children up by itself and hands on no more than a number.
struct Counting(u32);

impl CommandConfigurator<u32> for Counting {
    type Plan = u32;
    type Error = ();

    fn spawn_child(&mut self, input: &u32) -> Result<u32, ()> {
        self.0 += 1;
        Ok(self.0 + *input)
    }

    fn exec_timeout(&self) -> Duration {
        Duration::from_millis(u64::from(self.0))
    }
}

#[test]
fn a_configurator_can_start_children_in_its_own_way() {
    let mut executor: CommandExecutor<(), (), Counting> = Counting(0).into_executor(());
    let mut executions = 0u64;
    let (phase, _) = executor.run_target::<u32, u8>(&mut executions);
    let (phase, action) = executor.resume(&10u32, phase, Event::<u8>::Succeeded);
    assert!(matches!(action, Action::Spawn(11)));
    let (_, action) = executor.resume(&10u32, phase, Event::<u8>::Succeeded);
    assert!(matches!(action, Action::Wait(limit) if limit == Duration::from_millis(1)));
    assert_eq!(executor.configurer().0, 1);
}

#[test]
fn a_configurator_of_ones_own_can_be_used() {
    let mut executor: CommandExecutor<(), (), MyConfigurator> =
        MyConfigurator { refuses: false }.into_executor(());
    let input = "a".to_string();
    let mut executions = 0u64;
    let (phase, _) = executor.run_target::<String, u8>(&mut executions);
    let (phase, action) = executor.resume(&input, phase, Event::<u8>::Succeeded);
    match action {
        Action::Spawn(plan) => {
            assert_eq!(plan.command.program, b"../if");
            assert_eq!(plan.first(), SpawnStep::Start);
            assert!(plan.feeds_stdin);
        }
        other => panic!("{:?}", other),
    }
    let (phase, action) = executor.resume(&input, phase, Event::<u8>::Succeeded);
    assert!(matches!(action, Action::Wait(limit) if limit == Duration::from_secs(5)));
    let (phase, _) = executor.resume(&input, phase, Event::<u8>::Exited(None));
    let (_, action) = executor.resume(&input, phase, Event::<u8>::Succeeded);
    assert!(matches!(action, Action::Return(Ok(ExitKind::Normal))));
}

#[test]
fn a_configurator_can_refuse_a_child() {
    let mut executor: CommandExecutor<(), (), MyConfigurator> =
        MyConfigurator { refuses: true }.into_executor(());
    let mut executions = 0u64;
    let (phase, _) = executor.run_target::<String, u8>(&mut executions);
    let (_, action) = executor.resume(&"a".to_string(), phase, Event::<u8>::Succeeded);
    match action {
        Action::Return(Err(RunError::Configurator(error))) => {
            assert_eq!(error, "no child for a");
        }
        other => panic!("{:?}", other),
    }
}
