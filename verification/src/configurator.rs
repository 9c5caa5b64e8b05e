//! How a child is set up for one run.
use crate::bytes::{copy_bytes, list_view, same_bytes};
use crate::command::{Command, CommandView, Stdio};
use crate::error::Error;
use crate::executor::CommandExecutor;
use crate::handle::{Handle, StdErrObserver, StdOutObserver};
use crate::input::{HasTargetBytes, InputLocation, InputLocationView};
use crate::spawn::{FileInput, SpawnPlan, SpawnPlanView};
use core::time::Duration;
use vstd::prelude::*;
use vstd::utf8::encode_utf8;

verus! {

/// Takes care of setting up the child of a [`CommandExecutor`] for an input of
/// type `I`.
pub trait CommandConfigurator<I>: Sized {
    /// What whoever starts the children is given: a description of the child,
    /// or anything else that leads to a child, a started one among them.
    type Plan;

    /// Why a child cannot be set up.
    type Error;

    /// Whether setting up a child for `input` may give `plan` and turn the
    /// configurator `pre` into `post`. Anything may come of it unless a
    /// configurator says otherwise.
    open spec fn spawns(
        pre: Self,
        input: I,
        post: Self,
        plan: Result<Self::Plan, Self::Error>,
    ) -> bool {
        true
    }

    /// The observer that is given the child's standard output, if any.
    fn stdout_observer(&self) -> (handle: Option<Handle<StdOutObserver>>)
        default_ensures
            handle is None,
    {
        None
    }

    /// The observer that is given the child's standard error, if any.
    fn stderr_observer(&self) -> (handle: Option<Handle<StdErrObserver>>)
        default_ensures
            handle is None,
    {
        None
    }

    /// Sets up the child for `input`.
    fn spawn_child(&mut self, input: &I) -> (plan: Result<Self::Plan, Self::Error>)
        ensures
            Self::spawns(*old(self), *input, *final(self), plan),
    ;

    /// How long the child may run.
    fn exec_timeout(&self) -> (timeout: Duration);

    /// Makes an executor from this configurator.
    fn into_executor<OT, S>(self, observers: OT) -> (executor: CommandExecutor<OT, S, Self>)
        ensures
            executor.configured() == self,
            executor.observed_by() == observers,
    {
        CommandExecutor::new(self, observers)
    }
}

/// What an output stream of the child is connected to: a pipe if an observer
/// wants to read it, nothing if the child is to be quiet.
pub open spec fn output_stream(debug_child: bool, observed: bool) -> Stdio {
    if observed {
        Stdio::Piped
    } else if debug_child {
        Stdio::Inherit
    } else {
        Stdio::Null
    }
}

/// Computes what an output stream of the child is connected to.
pub(crate) fn connect_output(debug_child: bool, observed: bool) -> (stream: Stdio)
    ensures
        stream == output_stream(debug_child, observed),
{
    if observed {
        Stdio::Piped
    } else if debug_child {
        Stdio::Inherit
    } else {
        Stdio::Null
    }
}

/// The argument that stands where the input will be.
pub open spec fn placeholder() -> Seq<u8> {
    encode_utf8("PLACEHOLDER"@)
}

/// The arguments that a target gets when the argument at `argnum` is the input.
/// Where the command line is too short for that offset, it stays as it is.
pub open spec fn place_input(args: Seq<Seq<u8>>, argnum: nat, input: Seq<u8>) -> Seq<Seq<u8>> {
    if argnum < args.len() {
        args.update(argnum as int, input)
    } else {
        args
    }
}

/// The contents of a [`StdCommandConfigurator`].
#[verifier::ext_equal]
pub struct ConfiguratorView {
    pub debug_child: bool,
    pub stdout_observer: Option<Handle<StdOutObserver>>,
    pub stderr_observer: Option<Handle<StdErrObserver>>,
    pub timeout: Duration,
    pub input_location: InputLocationView,
    pub command: CommandView,
}

impl ConfiguratorView {
    /// Whether the input has a part in what is started. It has none where it is
    /// written to a child that already runs, nor where the command line does
    /// not reach as far as the argument that it would replace.
    pub open spec fn needs_input(self) -> bool {
        match self.input_location {
            InputLocationView::Arg { argnum } => argnum < self.command.args.len(),
            InputLocationView::StdIn => false,
            InputLocationView::File { .. } => true,
        }
    }

    /// The child for `input`. An input that is delivered as an argument goes
    /// into a fresh command, which takes the program, the arguments, the
    /// variables and the directory from the configured one, is connected to
    /// the same kind of outputs, and leaves the standard input inherited.
    pub open spec fn plan(self, input: Seq<u8>) -> SpawnPlanView {
        match self.input_location {
            InputLocationView::Arg { argnum } => SpawnPlanView {
                file: None,
                command: CommandView {
                    args: place_input(self.command.args, argnum, input),
                    stdin: Stdio::Inherit,
                    stdout: output_stream(self.debug_child, self.stdout_observer is Some),
                    stderr: output_stream(self.debug_child, self.stderr_observer is Some),
                    ..self.command
                },
                feeds_stdin: false,
            },
            InputLocationView::StdIn => SpawnPlanView {
                file: None,
                command: CommandView { stdin: Stdio::Piped, ..self.command },
                feeds_stdin: true,
            },
            InputLocationView::File { path } => SpawnPlanView {
                file: Some((path, input)),
                command: self.command,
                feeds_stdin: false,
            },
        }
    }

    /// The configurator after a child was set up: where inputs go to the
    /// standard input, the configured command now has a pipe for it.
    pub open spec fn after_spawn(self) -> Self {
        match self.input_location {
            InputLocationView::StdIn => ConfiguratorView {
                command: CommandView { stdin: Stdio::Piped, ..self.command },
                ..self
            },
            _ => self,
        }
    }

    /// The argument that the input will replace, if the command line reaches
    /// that far, is the placeholder.
    pub open spec fn placeholder_in_place(self) -> bool {
        self.input_location matches InputLocationView::Arg { argnum } ==> argnum
            < self.command.args.len() ==> self.command.args[argnum as int] == placeholder()
    }
}

/// A configurator that takes the most common parameters and delivers the input
/// as an argument, through the standard input or in a file.
#[derive(Debug)]
pub struct StdCommandConfigurator {
    debug_child: bool,
    stdout_observer: Option<Handle<StdOutObserver>>,
    stderr_observer: Option<Handle<StdErrObserver>>,
    timeout: Duration,
    input_location: InputLocation,
    command: Command,
}

impl View for StdCommandConfigurator {
    type V = ConfiguratorView;

    closed spec fn view(&self) -> ConfiguratorView {
        ConfiguratorView {
            debug_child: self.debug_child,
            stdout_observer: self.stdout_observer,
            stderr_observer: self.stderr_observer,
            timeout: self.timeout,
            input_location: self.input_location@,
            command: self.command@,
        }
    }
}

impl StdCommandConfigurator {
    /// Puts a configurator together.
    pub(crate) fn new(
        debug_child: bool,
        stdout_observer: Option<Handle<StdOutObserver>>,
        stderr_observer: Option<Handle<StdErrObserver>>,
        timeout: Duration,
        input_location: InputLocation,
        command: Command,
    ) -> (configurator: Self)
        ensures
            configurator@ == (ConfiguratorView {
                debug_child,
                stdout_observer,
                stderr_observer,
                timeout,
                input_location: input_location@,
                command: command@,
            }),
    {
        StdCommandConfigurator {
            debug_child,
            stdout_observer,
            stderr_observer,
            timeout,
            input_location,
            command,
        }
    }

    /// Tells whether the argument that the input will replace is still the
    /// placeholder.
    pub fn placeholder_in_place(&self) -> (in_place: bool)
        ensures
            in_place == self@.placeholder_in_place(),
    {
        match &self.input_location {
            InputLocation::Arg { argnum } => {
                if *argnum < self.command.args.len() {
                    assert(self@.command.args[*argnum as int] == self.command.args@[*argnum as int]@);
                    same_bytes(&self.command.args[*argnum], "PLACEHOLDER".as_bytes())
                } else {
                    true
                }
            },
            _ => true,
        }
    }

    /// The command whose argument at `argnum` is the input.
    fn command_with_input(&self, argnum: usize, input: &[u8]) -> (command: Command)
        ensures
            command@ == (CommandView {
                args: place_input(self@.command.args, argnum as nat, input@),
                stdin: Stdio::Inherit,
                stdout: output_stream(self@.debug_child, self@.stdout_observer is Some),
                stderr: output_stream(self@.debug_child, self@.stderr_observer is Some),
                ..self@.command
            }),
    {
        let mut command = Command::new(&self.command.program);
        command.stdout = connect_output(self.debug_child, self.stdout_observer.is_some());
        command.stderr = connect_output(self.debug_child, self.stderr_observer.is_some());

        let mut args: Vec<Vec<u8>> = Vec::new();
        let ghost wanted = place_input(self@.command.args, argnum as nat, input@);
        for i in 0..self.command.args.len()
            invariant
                args@.len() == i,
                wanted == place_input(list_view(self.command.args@), argnum as nat, input@),
                forall|j: int| 0 <= j < i ==> #[trigger] args@[j]@ == wanted[j],
        {
            if i == argnum {
                args.push(copy_bytes(input));
            } else {
                args.push(copy_bytes(&self.command.args[i]));
            }
        }
        assert(list_view(args@) =~= wanted);
        command.args = args;

        command.envs = self.command.envs.clone();
        if let Some(cwd) = &self.command.cwd {
            command.cwd = Some(copy_bytes(cwd));
        }
        command
    }

    /// Tells whether the input has a part in what is started.
    pub fn needs_input(&self) -> (needed: bool)
        ensures
            needed == self@.needs_input(),
    {
        match &self.input_location {
            InputLocation::Arg { argnum } => *argnum < self.command.args.len(),
            InputLocation::StdIn => false,
            InputLocation::File { .. } => true,
        }
    }

    /// The child for the bytes `input`, which play no part where the input is
    /// not needed.
    pub fn deliver(&mut self, input: Vec<u8>) -> (plan: SpawnPlan)
        ensures
            plan@ == old(self)@.plan(input@),
            final(self)@ == old(self)@.after_spawn(),
    {
        match &self.input_location {
            InputLocation::Arg { argnum } => SpawnPlan {
                file: None,
                command: self.command_with_input(*argnum, &input),
                feeds_stdin: false,
            },
            InputLocation::StdIn => {
                self.command.stdin = Stdio::Piped;
                SpawnPlan { file: None, command: self.command.clone(), feeds_stdin: true }
            },
            InputLocation::File { out_file } => SpawnPlan {
                file: Some(FileInput { file: out_file.clone(), bytes: input }),
                command: self.command.clone(),
                feeds_stdin: false,
            },
        }
    }
}

/// Whether `plan` is what `configurator` gives for `input`, whose bytes are
/// asked for only where they have a part in it.
pub open spec fn sets_up<I: HasTargetBytes>(
    configurator: ConfiguratorView,
    input: I,
    plan: SpawnPlanView,
) -> bool {
    if configurator.needs_input() {
        exists|bytes: Vec<u8>|
            {
                &&& #[trigger] call_ensures(I::target_bytes, (&input,), bytes)
                &&& plan == configurator.plan(bytes@)
            }
    } else {
        plan == configurator.plan(Seq::empty())
    }
}

/// The target sees the bytes of the input.
impl<I: HasTargetBytes> CommandConfigurator<I> for StdCommandConfigurator {
    type Plan = SpawnPlan;

    type Error = Error;

    open spec fn spawns(
        pre: Self,
        input: I,
        post: Self,
        plan: Result<SpawnPlan, Error>,
    ) -> bool {
        &&& post@ == pre@.after_spawn()
        &&& plan is Ok
        &&& sets_up(pre@, input, plan->Ok_0@)
    }

    fn stdout_observer(&self) -> (handle: Option<Handle<StdOutObserver>>)
        returns
            self@.stdout_observer,
    {
        self.stdout_observer.clone()
    }

    fn stderr_observer(&self) -> (handle: Option<Handle<StdErrObserver>>)
        returns
            self@.stderr_observer,
    {
        self.stderr_observer.clone()
    }

    fn spawn_child(&mut self, input: &I) -> (plan: Result<SpawnPlan, Error>) {
        let bytes = if self.needs_input() {
            input.target_bytes()
        } else {
            Vec::new()
        };
        Ok(self.deliver(bytes))
    }

    fn exec_timeout(&self) -> (timeout: Duration)
        returns
            self@.timeout,
    {
        self.timeout
    }
}

} // verus!
