//! The builder for a default executor that should fit most uses.
use crate::bytes::{copy_bytes, copy_list, copy_option, copy_pairs, list_view, option_view, pairs_view};
use crate::command::{Command, CommandView, Stdio};
use crate::configurator::{
    connect_output, output_stream, placeholder, CommandConfigurator, ConfiguratorView,
    StdCommandConfigurator,
};
use crate::env::{env_map, EnvVars};
use crate::error::{Error, NO_PROGRAM};
use crate::executor::CommandExecutor;
use crate::handle::{Handle, StdErrObserver, StdOutObserver};
use crate::input::{
    is_std_input_file, unique_std_input_file, InputFile, InputLocation, InputLocationView,
};
use core::time::Duration;
use vstd::prelude::*;
use vstd::utf8::encode_utf8;

verus! {

/// The duration that `core::time::Duration::from_secs` gives for a number of
/// whole seconds.
pub uninterp spec fn whole_seconds(secs: u64) -> Duration;

/// `core::time::Duration::from_secs` makes the duration of the given number of
/// whole seconds, which depends on that number alone.
pub assume_specification[ core::time::Duration::from_secs ](secs: u64) -> (duration: Duration)
    ensures
        duration == whole_seconds(secs),
;

/// The contents of a [`CommandExecutorBuilder`].
#[verifier::ext_equal]
pub struct BuilderView {
    pub stdout: Option<Handle<StdOutObserver>>,
    pub stderr: Option<Handle<StdErrObserver>>,
    pub debug_child: bool,
    pub program: Option<Seq<u8>>,
    pub args: Seq<Seq<u8>>,
    pub input_location: InputLocationView,
    pub cwd: Option<Seq<u8>>,
    pub envs: Seq<(Seq<u8>, Seq<u8>)>,
    pub timeout: Duration,
}

impl BuilderView {
    /// No program, no arguments, no observers; the input goes to the standard
    /// input of a quiet child that may run for five seconds.
    pub open spec fn new() -> Self {
        BuilderView {
            stdout: None,
            stderr: None,
            debug_child: false,
            program: None,
            args: Seq::empty(),
            input_location: InputLocationView::StdIn,
            cwd: None,
            envs: Seq::empty(),
            timeout: whole_seconds(5),
        }
    }

    /// With one more argument.
    pub open spec fn with_arg(self, arg: Seq<u8>) -> Self {
        BuilderView { args: self.args.push(arg), ..self }
    }

    /// With more arguments.
    pub open spec fn with_args(self, args: Seq<Seq<u8>>) -> Self {
        BuilderView { args: self.args + args, ..self }
    }

    /// With one more setting of a variable.
    pub open spec fn with_env(self, key: Seq<u8>, val: Seq<u8>) -> Self {
        BuilderView { envs: self.envs.push((key, val)), ..self }
    }

    /// With more settings of variables.
    pub open spec fn with_envs(self, envs: Seq<(Seq<u8>, Seq<u8>)>) -> Self {
        BuilderView { envs: self.envs + envs, ..self }
    }

    /// With another input location.
    pub open spec fn with_input(self, input_location: InputLocationView) -> Self {
        BuilderView { input_location, ..self }
    }

    /// With the input as the next argument.
    pub open spec fn with_input_arg(self) -> Self {
        self.with_input(InputLocationView::Arg { argnum: self.args.len() }).with_arg(placeholder())
    }

    /// With the input in a file whose path is the next argument.
    pub open spec fn with_input_file(self, path: Seq<u8>) -> Self {
        self.with_arg(path).with_input(InputLocationView::File { path })
    }

    /// The command that the builder describes.
    pub open spec fn command(self) -> CommandView
        recommends
            self.program is Some,
    {
        CommandView {
            program: self.program->0,
            args: self.args,
            envs: env_map(self.envs),
            cwd: self.cwd,
            stdin: if self.input_location is StdIn {
                Stdio::Piped
            } else {
                Stdio::Null
            },
            stdout: output_stream(self.debug_child, self.stdout is Some),
            stderr: output_stream(self.debug_child, self.stderr is Some),
        }
    }

    /// The configurator that the builder describes.
    pub open spec fn configurator(self) -> ConfiguratorView
        recommends
            self.program is Some,
    {
        ConfiguratorView {
            debug_child: self.debug_child,
            stdout_observer: self.stdout,
            stderr_observer: self.stderr,
            timeout: self.timeout,
            input_location: self.input_location,
            command: self.command(),
        }
    }
}

/// The builder for a default [`CommandExecutor`].
#[derive(Debug)]
pub struct CommandExecutorBuilder {
    stdout: Option<Handle<StdOutObserver>>,
    stderr: Option<Handle<StdErrObserver>>,
    debug_child: bool,
    program: Option<Vec<u8>>,
    args: Vec<Vec<u8>>,
    input_location: InputLocation,
    cwd: Option<Vec<u8>>,
    envs: Vec<(Vec<u8>, Vec<u8>)>,
    timeout: Duration,
}

impl View for CommandExecutorBuilder {
    type V = BuilderView;

    closed spec fn view(&self) -> BuilderView {
        BuilderView {
            stdout: self.stdout,
            stderr: self.stderr,
            debug_child: self.debug_child,
            program: option_view(self.program),
            args: list_view(self.args@),
            input_location: self.input_location@,
            cwd: option_view(self.cwd),
            envs: pairs_view(self.envs@),
            timeout: self.timeout,
        }
    }
}

impl Clone for CommandExecutorBuilder {
    fn clone(&self) -> (copy: Self)
        ensures
            copy@ == self@,
    {
        CommandExecutorBuilder {
            stdout: self.stdout.clone(),
            stderr: self.stderr.clone(),
            debug_child: self.debug_child,
            program: copy_option(&self.program),
            args: copy_list(&self.args),
            input_location: self.input_location.clone(),
            cwd: copy_option(&self.cwd),
            envs: copy_pairs(&self.envs),
            timeout: self.timeout,
        }
    }
}

impl Default for CommandExecutorBuilder {
    fn default() -> (builder: Self)
        ensures
            builder@ == BuilderView::new(),
    {
        Self::new()
    }
}

impl CommandExecutorBuilder {
    /// A builder with nothing set.
    #[must_use]
    pub(crate) fn new() -> (builder: Self)
        ensures
            builder@ == BuilderView::new(),
    {
        let builder = CommandExecutorBuilder {
            stdout: None,
            stderr: None,
            program: None,
            args: Vec::new(),
            input_location: InputLocation::StdIn,
            cwd: None,
            envs: Vec::new(),
            timeout: Duration::from_secs(5),
            debug_child: false,
        };
        assert(builder@ =~= BuilderView::new());
        builder
    }

    /// Sets the program to execute. This option is required.
    pub fn program(&mut self, program: &[u8]) -> (builder: &mut Self)
        ensures
            builder@ == (BuilderView { program: Some(program@), ..old(self)@ }),
            *final(self) == *final(builder),
    {
        self.program = Some(copy_bytes(program));
        self
    }

    /// Sets where the input goes. It can be moved away from the standard input
    /// once, and not again.
    pub fn input(&mut self, input: InputLocation) -> (builder: &mut Self)
        requires
            old(self)@.input_location is StdIn,
        ensures
            builder@ == old(self)@.with_input(input@),
            *final(self) == *final(builder),
    {
        self.input_location = input;
        self
    }

    /// Where the input goes.
    pub fn input_location(&self) -> (input_location: &InputLocation)
        ensures
            input_location@ == self@.input_location,
    {
        &self.input_location
    }

    /// Makes the input an argument, at the current position of the command
    /// line. Use [`Self::arg_input_file_std`] for an input in a file instead.
    pub fn arg_input_arg(&mut self) -> (builder: &mut Self)
        requires
            old(self)@.input_location is StdIn,
        ensures
            builder@ == old(self)@.with_input_arg(),
            *final(self) == *final(builder),
    {
        let argnum: usize = self.args.len();
        self.input(InputLocation::Arg { argnum });
        // Stands where the input will be.
        self.arg("PLACEHOLDER".as_bytes());
        self
    }

    /// Sets the observer of the standard output.
    pub fn stdout_observer(&mut self, stdout: Handle<StdOutObserver>) -> (builder: &mut Self)
        ensures
            builder@ == (BuilderView { stdout: Some(stdout), ..old(self)@ }),
            *final(self) == *final(builder),
    {
        self.stdout = Some(stdout);
        self
    }

    /// Sets the observer of the standard error.
    pub fn stderr_observer(&mut self, stderr: Handle<StdErrObserver>) -> (builder: &mut Self)
        ensures
            builder@ == (BuilderView { stderr: Some(stderr), ..old(self)@ }),
            *final(self) == *final(builder),
    {
        self.stderr = Some(stderr);
        self
    }

    /// Puts the input in a file of the default name, and adds that name as an
    /// argument at the current position. Use [`Self::arg_input_file`] for a
    /// name of your own.
    pub fn arg_input_file_std(&mut self) -> (builder: &mut Self)
        requires
            old(self)@.input_location is StdIn,
        ensures
            exists|name: Seq<char>| #[trigger]
                is_std_input_file(name) && builder@ == old(self)@.with_input_file(encode_utf8(name)),
            *final(self) == *final(builder),
    {
        let name = unique_std_input_file();
        self.arg_input_file(name.as_str().as_bytes());
        self
    }

    /// Puts the input in the file at `path`, and adds the path as an argument
    /// at the current position.
    pub fn arg_input_file(&mut self, path: &[u8]) -> (builder: &mut Self)
        requires
            old(self)@.input_location is StdIn,
        ensures
            builder@ == old(self)@.with_input_file(path@),
            *final(self) == *final(builder),
    {
        self.arg(path);
        self.input(InputLocation::File { out_file: InputFile { path: copy_bytes(path) } });
        self
    }

    /// Adds an argument to the command line.
    pub fn arg(&mut self, arg: &[u8]) -> (builder: &mut Self)
        ensures
            builder@ == old(self)@.with_arg(arg@),
            *final(self) == *final(builder),
    {
        self.args.push(copy_bytes(arg));
        assert(list_view(self.args@) =~= list_view(old(self).args@).push(arg@));
        self
    }

    /// Adds arguments to the command line.
    pub fn args(&mut self, args: &[Vec<u8>]) -> (builder: &mut Self)
        ensures
            builder@ == old(self)@.with_args(list_view(args@)),
            *final(self) == *final(builder),
    {
        let ghost start = self@;
        assert(start.with_args(list_view(args@).take(0)) =~= start);
        for i in 0..args.len()
            invariant
                self@ == start.with_args(list_view(args@).take(i as int)),
        {
            self.arg(&args[i]);
            assert(list_view(args@).take(i + 1) =~= list_view(args@).take(i as int).push(args@[i as int]@));
            assert(self@ =~= start.with_args(list_view(args@).take(i + 1)));
        }
        assert(list_view(args@).take(args@.len() as int) =~= list_view(args@));
        self
    }

    /// Sets environment variables for the child.
    pub fn envs(&mut self, vars: &[(Vec<u8>, Vec<u8>)]) -> (builder: &mut Self)
        ensures
            builder@ == old(self)@.with_envs(pairs_view(vars@)),
            *final(self) == *final(builder),
    {
        let ghost start = self@;
        assert(start.with_envs(pairs_view(vars@).take(0)) =~= start);
        for i in 0..vars.len()
            invariant
                self@ == start.with_envs(pairs_view(vars@).take(i as int)),
        {
            self.env(&vars[i].0, &vars[i].1);
            assert(pairs_view(vars@).take(i + 1) =~= pairs_view(vars@).take(i as int).push(
                (vars@[i as int].0@, vars@[i as int].1@),
            ));
            assert(self@ =~= start.with_envs(pairs_view(vars@).take(i + 1)));
        }
        assert(pairs_view(vars@).take(vars@.len() as int) =~= pairs_view(vars@));
        self
    }

    /// Sets an environment variable for the child.
    pub fn env(&mut self, key: &[u8], val: &[u8]) -> (builder: &mut Self)
        ensures
            builder@ == old(self)@.with_env(key@, val@),
            *final(self) == *final(builder),
    {
        self.envs.push((copy_bytes(key), copy_bytes(val)));
        assert(pairs_view(self.envs@) =~= pairs_view(old(self).envs@).push((key@, val@)));
        self
    }

    /// Sets the directory that the child works in.
    pub fn current_dir(&mut self, dir: &[u8]) -> (builder: &mut Self)
        ensures
            builder@ == (BuilderView { cwd: Some(dir@), ..old(self)@ }),
            *final(self) == *final(builder),
    {
        self.cwd = Some(copy_bytes(dir));
        self
    }

    /// If set to true, the child's output is not thrown away. Defaults to
    /// `false`.
    pub fn debug_child(&mut self, debug_child: bool) -> (builder: &mut Self)
        ensures
            builder@ == (BuilderView { debug_child, ..old(self)@ }),
            *final(self) == *final(builder),
    {
        self.debug_child = debug_child;
        self
    }

    /// Sets how long the child may run.
    pub fn timeout(&mut self, timeout: Duration) -> (builder: &mut Self)
        ensures
            builder@ == (BuilderView { timeout, ..old(self)@ }),
            *final(self) == *final(builder),
    {
        self.timeout = timeout;
        self
    }

    /// Builds the executor. Fails if no program was set, and in no other case.
    pub fn build<OT, S>(&self, observers: OT) -> (executor: Result<
        CommandExecutor<OT, S, StdCommandConfigurator>,
        Error,
    >)
        ensures
            match executor {
                Ok(executor) => {
                    &&& self@.program is Some
                    &&& executor.configured()@ == self@.configurator()
                    &&& executor.observed_by() == observers
                },
                Err(error) => self@.program is None && error == Error::IllegalArgument(NO_PROGRAM),
            },
    {
        let program = match &self.program {
            Some(program) => program,
            None => {
                return Err(Error::IllegalArgument(NO_PROGRAM));
            },
        };

        let mut command = Command::new(program);
        match &self.input_location {
            InputLocation::StdIn => {
                command.stdin = Stdio::Piped;
            },
            InputLocation::File { .. } | InputLocation::Arg { .. } => {
                command.stdin = Stdio::Null;
            },
        }
        command.args = copy_list(&self.args);
        command.envs = self.set_variables();
        if let Some(cwd) = &self.cwd {
            command.cwd = Some(copy_bytes(cwd));
        }
        command.stdout = connect_output(self.debug_child, self.stdout.is_some());
        command.stderr = connect_output(self.debug_child, self.stderr.is_some());

        let configurator = StdCommandConfigurator::new(
            self.debug_child,
            self.stdout.clone(),
            self.stderr.clone(),
            self.timeout,
            self.input_location.clone(),
            command,
        );
        Ok(
            <StdCommandConfigurator as CommandConfigurator<Vec<u8>>>::into_executor::<OT, S>(
                configurator,
                observers,
            ),
        )
    }

    /// Sets the variables one after the other.
    fn set_variables(&self) -> (vars: EnvVars)
        ensures
            vars@ == env_map(self@.envs),
    {
        let mut vars = EnvVars::new();
        for i in 0..self.envs.len()
            invariant
                vars@ == env_map(pairs_view(self.envs@).take(i as int)),
        {
            vars.set(&self.envs[i].0, &self.envs[i].1);
            assert(pairs_view(self.envs@).take(i + 1).drop_last() =~= pairs_view(self.envs@).take(i as int));
        }
        assert(pairs_view(self.envs@).take(self.envs@.len() as int) =~= pairs_view(self.envs@));
        vars
    }
}

} // verus!
