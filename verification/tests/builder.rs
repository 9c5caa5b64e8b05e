use command_executor::builder::CommandExecutorBuilder;
use command_executor::command::Stdio;
use command_executor::configurator::{CommandConfigurator, StdCommandConfigurator};
use command_executor::error::{Error, NO_PROGRAM};
use command_executor::executor::CommandExecutor;
use command_executor::handle::Handle;
use command_executor::input::{HasTargetBytes, InputFile, InputLocation};
use command_executor::run::{Action, Event, ExitKind};
use command_executor::spawn::{SpawnPlan, SpawnStep};
use std::time::Duration;

fn executor(builder: &CommandExecutorBuilder) -> CommandExecutor<(), (), StdCommandConfigurator> {
    builder.build(()).unwrap()
}

fn plan(builder: &CommandExecutorBuilder, input: &[u8]) -> SpawnPlan {
    executor(builder).inner().spawn_child(&input.to_vec()).unwrap()
}

fn timeout(builder: &CommandExecutorBuilder) -> Duration {
    CommandConfigurator::<Vec<u8>>::exec_timeout(executor(builder).configurer())
}

fn strings(items: &[&str]) -> Vec<Vec<u8>> {
    items.iter().map(|item| item.as_bytes().to_vec()).collect()
}

#[test]
fn test_builder() {
    let mut executor = CommandExecutor::builder();
    executor
        .program(b"ls")
        .input(InputLocation::Arg { argnum: 0 });
    let executor: Result<CommandExecutor<(), (), StdCommandConfigurator>, Error> = executor.build(());
    let mut executor = executor.unwrap();

    let input = b"test".to_vec();
    let mut executions = 0u64;
    let (phase, action) = executor.run_target::<Vec<u8>, String>(&mut executions);
    assert_eq!(executions, 1);
    assert!(matches!(action, Action::PreExec));
    let (phase, action) = executor.resume(&input, phase, Event::<String>::Succeeded);
    match action {
        Action::Spawn(plan) => {
            assert_eq!(plan.command.program, b"ls");
            assert!(plan.command.args.is_empty());
            assert!(matches!(plan.first(), SpawnStep::Start));
        }
        other => panic!("{:?}", other),
    }
    let (phase, action) = executor.resume(&input, phase, Event::<String>::Succeeded);
    assert!(matches!(action, Action::Wait(limit) if limit == Duration::from_secs(5)));
    let (phase, action) = executor.resume(&input, phase, Event::<String>::Exited(None));
    assert!(matches!(action, Action::PostExec(ExitKind::Normal)));
    let (_, action) = executor.resume(&input, phase, Event::<String>::Succeeded);
    match action {
        Action::Return(result) => {
            result.unwrap();
        }
        other => panic!("{:?}", other),
    }
}

#[test]
fn program_is_required() {
    let mut builder = CommandExecutor::builder();
    builder.arg(b"-l");
    let built: Result<CommandExecutor<(), (), StdCommandConfigurator>, Error> = builder.build(());
    assert_eq!(
        built.err(),
        Some(Error::IllegalArgument("CommandExecutor::builder: no program set!"))
    );
    assert_eq!(NO_PROGRAM, "CommandExecutor::builder: no program set!");
}

#[test]
fn input_goes_to_stdin_by_default() {
    let mut builder = CommandExecutorBuilder::default();
    builder.program(b"cat").arg(b"-");
    let plan = plan(&builder, b"data");
    assert_eq!(plan.stdin_input(&b"data".to_vec()), Some(b"data".to_vec()));
    assert!(plan.file.is_none());
    assert_eq!(plan.command.program, b"cat");
    assert_eq!(plan.command.args, strings(&["-"]));
    assert_eq!(plan.command.stdin, Stdio::Piped);
    assert_eq!(plan.command.stdout, Stdio::Null);
    assert_eq!(plan.command.stderr, Stdio::Null);
}

#[test]
fn input_replaces_the_placeholder() {
    let mut builder = CommandExecutor::builder();
    builder
        .program(b"echo")
        .arg(b"-n")
        .arg_input_arg()
        .args(&strings(&["a", "b"]));
    let mut executor = executor(&builder);
    assert!(executor.inner().placeholder_in_place());
    for input in [b"one".to_vec(), vec![0xff, 0x80], Vec::new()] {
        let plan = executor.inner().spawn_child(&input).unwrap();
        assert_eq!(
            plan.command.args,
            vec![b"-n".to_vec(), input, b"a".to_vec(), b"b".to_vec()]
        );
        assert_eq!(plan.stdin_input(&b"data".to_vec()), None);
        assert!(plan.file.is_none());
        assert_eq!(plan.command.stdin, Stdio::Inherit);
    }
}

#[test]
fn input_replaces_whatever_is_at_the_offset() {
    let mut builder = CommandExecutor::builder();
    builder
        .program(b"echo")
        .input(InputLocation::Arg { argnum: 1 })
        .args(&strings(&["a", "b", "c"]));
    let mut executor = executor(&builder);
    assert!(!executor.inner().placeholder_in_place());
    let plan = executor.inner().spawn_child(&b"x".to_vec()).unwrap();
    assert_eq!(plan.command.args, strings(&["a", "x", "c"]));
}

#[test]
fn input_offset_past_the_end_is_ignored() {
    let mut builder = CommandExecutor::builder();
    builder
        .program(b"echo")
        .input(InputLocation::Arg { argnum: 7 })
        .arg(b"a");
    let mut executor = executor(&builder);
    assert!(executor.inner().placeholder_in_place());
    let plan = executor.inner().spawn_child(&b"x".to_vec()).unwrap();
    assert_eq!(plan.command.args, strings(&["a"]));
}

#[test]
fn the_placeholder_is_an_argument_until_the_input_comes() {
    let mut builder = CommandExecutor::builder();
    builder.program(b"echo").arg_input_arg();
    let mut executor = executor(&builder);
    let plan = executor.inner().spawn_child(&b"PLACEHOLDER".to_vec()).unwrap();
    assert_eq!(plan.command.args, strings(&["PLACEHOLDER"]));
}

#[test]
fn input_goes_to_a_named_file() {
    let mut builder = CommandExecutor::builder();
    builder
        .program(b"cat")
        .arg(b"-v")
        .arg_input_file(b"/tmp/in")
        .arg(b"end");
    let plan = plan(&builder, b"data");
    let file = plan.file.as_ref().unwrap();
    assert_eq!(file.file, InputFile { path: b"/tmp/in".to_vec() });
    assert_eq!(file.bytes, b"data");
    assert_eq!(plan.stdin_input(&b"data".to_vec()), None);
    assert_eq!(plan.command.args, strings(&["-v", "/tmp/in", "end"]));
    assert_eq!(plan.command.stdin, Stdio::Null);
    assert!(matches!(plan.first(), SpawnStep::WriteFile));
}

#[test]
fn input_goes_to_the_default_file() {
    let mut builder = CommandExecutor::builder();
    builder.program(b"cat").arg_input_file_std();
    let plan = plan(&builder, b"data");
    let name = String::from_utf8(plan.file.as_ref().unwrap().file.path.clone()).unwrap();
    let id = name.strip_prefix(".cur_input_").unwrap();
    let number: u32 = id.parse().unwrap();
    assert_eq!(number.to_string(), id);
    assert_eq!(name, libafl_bolts::fs::get_unique_std_input_file());
    assert_eq!(plan.command.args, vec![name.into_bytes()]);
}

#[test]
fn outputs_are_piped_hidden_or_inherited() {
    for place_input in [false, true] {
        for debug_child in [false, true] {
            let mut builder = CommandExecutor::builder();
            builder.program(b"ls").debug_child(debug_child);
            if place_input {
                builder.arg_input_arg();
            }
            let unobserved = if debug_child { Stdio::Inherit } else { Stdio::Null };
            let quiet = plan(&builder, b"");
            assert_eq!(quiet.command.stdout, unobserved);
            assert_eq!(quiet.command.stderr, unobserved);

            let mut observed = builder.clone();
            observed.stdout_observer(Handle::new("out".to_string()));
            let one = plan(&observed, b"");
            assert_eq!(one.command.stdout, Stdio::Piped);
            assert_eq!(one.command.stderr, unobserved);

            observed.stderr_observer(Handle::new("err".to_string()));
            let both = plan(&observed, b"");
            assert_eq!(both.command.stdout, Stdio::Piped);
            assert_eq!(both.command.stderr, Stdio::Piped);
        }
    }
}

#[test]
fn the_last_setting_of_a_variable_holds() {
    let mut builder = CommandExecutor::builder();
    builder
        .program(b"env")
        .env(b"A", b"1")
        .envs(&[(b"B".to_vec(), b"2".to_vec()), (b"A".to_vec(), b"3".to_vec())])
        .arg_input_arg();
    let plan = plan(&builder, b"");
    let mut entries = plan.command.envs.entries().clone();
    entries.sort();
    assert_eq!(
        entries,
        vec![(b"A".to_vec(), b"3".to_vec()), (b"B".to_vec(), b"2".to_vec())]
    );
}

#[test]
fn directory_and_timeout_are_kept() {
    let mut builder = CommandExecutor::builder();
    builder.program(b"pwd");
    assert_eq!(timeout(&builder), Duration::from_secs(5));
    assert_eq!(plan(&builder, b"").command.cwd, None);

    builder.current_dir(b"/tmp").timeout(Duration::from_millis(250));
    assert_eq!(timeout(&builder), Duration::from_millis(250));
    assert_eq!(plan(&builder, b"").command.cwd, Some(b"/tmp".to_vec()));
    builder.arg_input_arg();
    assert_eq!(plan(&builder, b"").command.cwd, Some(b"/tmp".to_vec()));
}

#[test]
fn children_do_not_depend_on_earlier_ones() {
    let mut builder = CommandExecutor::builder();
    builder.program(b"cat").env(b"A", b"1");
    let mut executor = executor(&builder);
    executor.inner().spawn_child(&b"first".to_vec()).unwrap();
    let second = executor.inner().spawn_child(&b"second".to_vec()).unwrap();
    let fresh = plan(&builder, b"second");
    assert_eq!(second.feeds_stdin, fresh.feeds_stdin);
    assert_eq!(second.command.stdin, fresh.command.stdin);
    assert_eq!(second.command.args, fresh.command.args);
    assert_eq!(second.command.envs.entries(), fresh.command.envs.entries());
}

#[test]
fn a_builder_can_be_used_again() {
    let mut builder = CommandExecutor::builder();
    builder.program(b"ls").arg(b"-a");
    let first = plan(&builder, b"");
    builder.program(b"cat").arg(b"-b");
    let second = plan(&builder, b"");
    assert_eq!(first.command.program, b"ls");
    assert_eq!(first.command.args, strings(&["-a"]));
    assert_eq!(second.command.program, b"cat");
    assert_eq!(second.command.args, strings(&["-a", "-b"]));
}

#[test]
fn observers_are_kept() {
    let mut builder = CommandExecutor::builder();
    builder.program(b"ls");
    let mut executor: CommandExecutor<Vec<u8>, (), StdCommandConfigurator> =
        builder.build(vec![1]).unwrap();
    executor.observers_mut().push(2);
    assert_eq!(executor.observers(), &vec![1, 2]);
}

struct Words(Vec<&'static str>);

impl HasTargetBytes for Words {
    fn target_bytes(&self) -> Vec<u8> {
        self.0.join(" ").into_bytes()
    }
}

#[test]
fn the_target_sees_the_bytes_of_any_input() {
    let mut builder = CommandExecutor::builder();
    builder.program(b"cat");
    let mut executor = executor(&builder);
    let plan = executor.inner().spawn_child(&Words(vec!["a", "b"])).unwrap();
    assert_eq!(plan.stdin_input(&Words(vec!["a", "b"])), Some(b"a b".to_vec()));

    let mut builder = CommandExecutor::builder();
    builder.program(b"echo").arg_input_arg();
    let mut executor: CommandExecutor<(), (), StdCommandConfigurator> = builder.build(()).unwrap();
    let plan = executor.inner().spawn_child(&Words(vec!["a", "b"])).unwrap();
    assert_eq!(plan.command.args, strings(&["a b"]));
    assert_eq!(executor.inner().deliver(b"c".to_vec()).command.args, strings(&["c"]));
}

/// Counts how often its bytes are asked for.
struct Asked(std::cell::Cell<u32>);

impl HasTargetBytes for Asked {
    fn target_bytes(&self) -> Vec<u8> {
        self.0.set(self.0.get() + 1);
        b"x".to_vec()
    }
}

#[test]
fn bytes_are_asked_for_once_and_only_where_they_go() {
    let asked = Asked(std::cell::Cell::new(0));

    let mut stdin = CommandExecutor::builder();
    stdin.program(b"cat");
    assert!(!executor(&stdin).configurer().needs_input());
    let plan = executor(&stdin).inner().spawn_child(&asked).unwrap();
    assert_eq!(asked.0.get(), 0);
    assert_eq!(plan.stdin_input(&asked), Some(b"x".to_vec()));
    assert_eq!(asked.0.get(), 1);

    let mut short = CommandExecutor::builder();
    short.program(b"echo").input(InputLocation::Arg { argnum: 1 }).arg(b"a");
    assert!(!executor(&short).configurer().needs_input());
    let plan = executor(&short).inner().spawn_child(&asked).unwrap();
    assert_eq!(plan.stdin_input(&asked), None);
    assert_eq!(asked.0.get(), 1);

    let mut argument = CommandExecutor::builder();
    argument.program(b"echo").arg_input_arg();
    assert!(executor(&argument).configurer().needs_input());
    let plan = executor(&argument).inner().spawn_child(&asked).unwrap();
    assert_eq!(plan.stdin_input(&asked), None);
    assert_eq!(asked.0.get(), 2);

    let mut file = CommandExecutor::builder();
    file.program(b"cat").arg_input_file(b"in");
    assert!(executor(&file).configurer().needs_input());
    let plan = executor(&file).inner().spawn_child(&asked).unwrap();
    assert_eq!(plan.stdin_input(&asked), None);
    assert_eq!(asked.0.get(), 3);
}

#[test]
fn file_locations_are_compared_as_paths() {
    let paths = [
        "", ".", "./", "/", "//", "/.", "a", "a/", "./a", ".//a", "a/.", "a/./", "/a", "//a", "/./a", "/a/",
        "a/b", "a//b", "a/./b", "a/b/.", "./a/b", "././a/b", "/a/b", "..", "../", "a/..", "a/../b", "a/..b",
        ".a", "a.", "...", "a/b/c", "ab", "a b",
    ];
    for a in paths {
        for b in paths {
            let same = std::path::Path::new(a) == std::path::Path::new(b);
            let ours = InputFile { path: a.as_bytes().to_vec() };
            let theirs = InputFile { path: b.as_bytes().to_vec() };
            assert_eq!(ours == theirs, same, "{:?} {:?}", a, b);
            let ours = InputLocation::File { out_file: ours };
            let theirs = InputLocation::File { out_file: theirs };
            assert_eq!(ours == theirs, same, "{:?} {:?}", a, b);
        }
    }
    let file = InputLocation::File { out_file: InputFile { path: b"a".to_vec() } };
    assert!(file != InputLocation::StdIn);
    assert!(InputLocation::StdIn == InputLocation::StdIn);
    assert!(InputLocation::Arg { argnum: 1 } == InputLocation::Arg { argnum: 1 });
    assert!(InputLocation::Arg { argnum: 1 } != InputLocation::Arg { argnum: 2 });
    assert!(InputLocation::Arg { argnum: 1 } != file);
}
