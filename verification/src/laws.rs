//! What holds of the library as a whole.
use crate::builder::BuilderView;
use crate::command::Stdio;
use crate::configurator::{
    output_stream, placeholder, sets_up, CommandConfigurator, ConfiguratorView,
    StdCommandConfigurator,
};
use crate::env::env_map;
use crate::error::{Error, NOT_PIPED};
use crate::input::{HasTargetBytes, InputLocationView};
use crate::run::{
    consults, next, turn_to_stderr, turn_to_stdout, Action, Answers, Event, ExitKind, Phase,
    RunError,
};
use crate::spawn::{IoFailure, SpawnPlan, SpawnPlanView, SpawnProgress, SpawnStep};
use vstd::prelude::*;

verus! {

// Delivering the input.

/// An input that is delivered as an argument stands where the builder was told
/// to put it, between the arguments that were added before and after, whatever
/// else was set on the builder.
pub proof fn law_input_as_argument(
    before: BuilderView,
    later: Seq<Seq<u8>>,
    built: BuilderView,
    input: Seq<u8>,
)
    requires
        before.input_location is StdIn,
        built.program is Some,
        built.input_location == before.with_input_arg().input_location,
        built.args == before.with_input_arg().args + later,
    ensures
        built.configurator().plan(input).command.args == before.args + seq![input] + later,
        built.configurator().plan(input).file is None,
        !built.configurator().plan(input).feeds_stdin,
{
    assert(built.configurator().plan(input).command.args =~= before.args + seq![input] + later);
}

/// An input that is delivered in a file is all that is written to that file,
/// before the target starts, and the target finds the path of the file where
/// the builder was told to put it.
pub proof fn law_input_in_file(
    before: BuilderView,
    path: Seq<u8>,
    later: Seq<Seq<u8>>,
    built: BuilderView,
    input: Seq<u8>,
)
    requires
        before.input_location is StdIn,
        built.program is Some,
        built.input_location == before.with_input_file(path).input_location,
        built.args == before.with_input_file(path).args + later,
    ensures
        built.configurator().plan(input).file == Some((path, input)),
        built.configurator().plan(input).first() == SpawnStep::WriteFile,
        built.configurator().plan(input).command.args == before.args + seq![path] + later,
        !built.configurator().plan(input).feeds_stdin,
{
    assert(built.configurator().plan(input).command.args =~= before.args + seq![path] + later);
}

/// Where no other location is chosen, the input goes to the standard input of
/// a target that gets the command line as it is.
pub proof fn law_input_through_stdin(built: BuilderView, input: Seq<u8>)
    requires
        built.program is Some,
        built.input_location == BuilderView::new().input_location,
    ensures
        built.configurator().plan(input).feeds_stdin,
        built.configurator().plan(input).command == built.command(),
        built.configurator().plan(input).command.stdin == Stdio::Piped,
        built.configurator().plan(input).file is None,
{
}

/// An input that is not needed to set a child up plays no part in it: the child
/// is the same for any bytes, and then its standard input is fed or the input is
/// not delivered at all.
pub proof fn law_unneeded_input_plays_no_part(
    configurator: ConfiguratorView,
    one: Seq<u8>,
    other: Seq<u8>,
)
    requires
        !configurator.needs_input(),
    ensures
        configurator.plan(one) == configurator.plan(other),
        configurator.plan(one).file is None,
        configurator.plan(one).feeds_stdin || configurator.plan(one).command.args
            == configurator.command.args,
{
}

/// The placeholder of an input argument is in its place, so that nothing else
/// is overwritten by the input.
pub open spec fn keeps_placeholder(builder: BuilderView) -> bool {
    builder.input_location matches InputLocationView::Arg { argnum } ==> {
        &&& argnum < builder.args.len()
        &&& builder.args[argnum as int] == placeholder()
    }
}

/// A fresh builder has its placeholder in place, and it stays there whatever is
/// added to the command line and whichever input location is chosen; the input
/// replaces nothing else.
pub proof fn law_placeholder_stays(
    builder: BuilderView,
    arg: Seq<u8>,
    args: Seq<Seq<u8>>,
    path: Seq<u8>,
)
    requires
        keeps_placeholder(builder),
    ensures
        keeps_placeholder(BuilderView::new()),
        keeps_placeholder(builder.with_arg(arg)),
        keeps_placeholder(builder.with_args(args)),
        keeps_placeholder(builder.with_input_arg()),
        keeps_placeholder(builder.with_input_file(path)),
        builder.configurator().placeholder_in_place(),
{
}

/// Setting up a child leaves no trace on the next one: whatever the first
/// input was, the second child is the one that a fresh configurator gives.
pub proof fn law_runs_are_independent(configurator: ConfiguratorView, input: Seq<u8>)
    ensures
        configurator.after_spawn().plan(input) == configurator.plan(input),
        configurator.after_spawn().after_spawn() == configurator.after_spawn(),
{
}

/// A configurator from a builder is not changed by setting up a child.
pub proof fn law_built_configurator_is_steady(built: BuilderView)
    requires
        built.program is Some,
    ensures
        built.configurator().after_spawn() == built.configurator(),
{
}

// The child.

/// However the input is delivered, the child is the process that the builder
/// describes: its program, its variables, its directory, the number of its
/// arguments, and its outputs.
pub proof fn law_child_is_as_described(built: BuilderView, input: Seq<u8>)
    requires
        built.program is Some,
    ensures
        ({
            let child = built.configurator().plan(input).command;
            &&& child.program == built.program->0
            &&& child.envs == env_map(built.envs)
            &&& child.cwd == built.cwd
            &&& child.args.len() == built.args.len()
            &&& child.stdout == output_stream(built.debug_child, built.stdout is Some)
            &&& child.stderr == output_stream(built.debug_child, built.stderr is Some)
        }),
{
}

/// An output is piped if and only if it is observed; one that is not observed
/// is thrown away unless the child is debugged.
pub proof fn law_observed_outputs_are_piped(built: BuilderView, input: Seq<u8>)
    requires
        built.program is Some,
    ensures
        ({
            let child = built.configurator().plan(input).command;
            &&& child.stdout == Stdio::Piped <==> built.stdout is Some
            &&& child.stderr == Stdio::Piped <==> built.stderr is Some
            &&& child.stdout == Stdio::Null <==> built.stdout is None && !built.debug_child
            &&& child.stderr == Stdio::Null <==> built.stderr is None && !built.debug_child
        }),
{
}

/// A variable has the value of its last setting, and one that is never set is
/// not touched.
pub proof fn law_last_setting_holds(settings: Seq<(Seq<u8>, Seq<u8>)>, key: Seq<u8>)
    ensures
        env_map(settings).dom().contains(key) <==> exists|i: int|
            0 <= i < settings.len() && (#[trigger] settings[i]).0 == key,
        forall|i: int|
            0 <= i < settings.len() && (#[trigger] settings[i]).0 == key && (forall|j: int|
                i < j < settings.len() ==> (#[trigger] settings[j]).0 != key) ==> env_map(
                settings,
            )[key] == settings[i].1,
    decreases settings.len(),
{
    if settings.len() > 0 {
        let earlier = settings.drop_last();
        law_last_setting_holds(earlier, key);
        assert(forall|i: int| 0 <= i < earlier.len() ==> #[trigger] earlier[i] == settings[i]);
        assert forall|i: int| 0 <= i < settings.len() && (#[trigger] settings[i]).0 == key implies env_map(
            settings,
        ).dom().contains(key) by {
            if i < earlier.len() {
                assert(earlier[i].0 == key);
            }
        }
        if env_map(settings).dom().contains(key) {
            if settings.last().0 != key {
                let i = choose|i: int| 0 <= i < earlier.len() && (#[trigger] earlier[i]).0 == key;
                assert(settings[i].0 == key);
            }
        }
        assert forall|i: int|
            0 <= i < settings.len() && (#[trigger] settings[i]).0 == key && (forall|j: int|
                i < j < settings.len() ==> (#[trigger] settings[j]).0 != key) implies env_map(
            settings,
        )[key] == settings[i].1 by {
            if i < earlier.len() {
                assert(earlier[i].0 == key);
                assert(settings[settings.len() - 1].0 != key);
            }
        }
    }
}

// Starting the child.

/// How many steps can follow on a step.
pub open spec fn steps_left(step: SpawnStep) -> nat {
    match step {
        SpawnStep::WriteFile => 4,
        SpawnStep::Start => 3,
        SpawnStep::WriteStdin => 2,
        SpawnStep::FlushStdin => 1,
        SpawnStep::CloseStdin => 0,
    }
}

/// The steps that are taken from `step` on, and what comes of them, where
/// `outcome` says how each step goes.
pub open spec fn perform<E>(
    plan: SpawnPlanView,
    step: SpawnStep,
    outcome: spec_fn(SpawnStep) -> Result<(), IoFailure<E>>,
) -> (Seq<SpawnStep>, Result<(), E>)
    decreases steps_left(step),
{
    match plan.after(step, outcome(step)) {
        SpawnProgress::Next(following) => {
            let rest = perform(plan, following, outcome);
            (seq![step] + rest.0, rest.1)
        },
        SpawnProgress::Spawned => (seq![step], Ok(())),
        SpawnProgress::Failed(error) => (seq![step], Err(error)),
    }
}

/// An operation on a pipe whose failure counts: one that failed for another
/// reason than that the child closed its end.
pub open spec fn pipe_error<E>(outcome: Result<(), IoFailure<E>>) -> Option<E> {
    match outcome {
        Err(failure) if !failure.broken_pipe => Some(failure.error),
        _ => None,
    }
}

/// What starting a child comes to: the error of the first operation that
/// fails, where a broken pipe is no failure, and where a standard input that
/// could not be written to is not flushed.
pub open spec fn spawn_result<E>(
    plan: SpawnPlanView,
    outcome: spec_fn(SpawnStep) -> Result<(), IoFailure<E>>,
) -> Result<(), E> {
    if plan.file is Some && outcome(SpawnStep::WriteFile) is Err {
        Err(outcome(SpawnStep::WriteFile)->Err_0.error)
    } else if outcome(SpawnStep::Start) is Err {
        Err(outcome(SpawnStep::Start)->Err_0.error)
    } else if !plan.feeds_stdin {
        Ok(())
    } else if pipe_error(outcome(SpawnStep::WriteStdin)) is Some {
        Err(pipe_error(outcome(SpawnStep::WriteStdin))->0)
    } else if outcome(SpawnStep::WriteStdin) is Ok && pipe_error(
        outcome(SpawnStep::FlushStdin),
    ) is Some {
        Err(pipe_error(outcome(SpawnStep::FlushStdin))->0)
    } else {
        Ok(())
    }
}

/// Carrying out a plan comes to what its operations come to. The child starts
/// only once its file is filled, and once the input has been handed over, its
/// standard input is closed.
pub proof fn law_plan_is_carried_out<E>(
    plan: SpawnPlanView,
    outcome: spec_fn(SpawnStep) -> Result<(), IoFailure<E>>,
)
    ensures
        perform(plan, plan.first(), outcome).1 == spawn_result(plan, outcome),
        perform(plan, plan.first(), outcome).0.contains(SpawnStep::Start) ==> (plan.file is Some
            ==> outcome(SpawnStep::WriteFile) is Ok && perform(plan, plan.first(), outcome).0[0]
            == SpawnStep::WriteFile),
        spawn_result(plan, outcome) is Ok && plan.feeds_stdin ==> perform(
            plan,
            plan.first(),
            outcome,
        ).0.last() == SpawnStep::CloseStdin,
{
    reveal_with_fuel(perform, 6);
}

// The run.

/// What comes of reading an output of the child.
pub enum Reading<E> {
    NotPiped,
    Failed(E),
    Read(Vec<u8>),
}

/// What comes of the actions of a run, as far as they are performed.
pub struct Outcomes<E> {
    pub pre_exec: Result<(), E>,
    pub spawn: Result<(), E>,
    /// The signal, if any, that ended a child that exited in time.
    pub exit: Option<Option<i32>>,
    pub kill: Result<(), E>,
    pub reap: Result<(), E>,
    pub post_exec: Result<(), E>,
    pub stdout: Reading<E>,
    pub stderr: Reading<E>,
}

/// The event that reports whether an action succeeded.
pub open spec fn reported<E>(outcome: Result<(), E>) -> Event<E> {
    match outcome {
        Ok(()) => Event::Succeeded,
        Err(error) => Event::Failed(error),
    }
}

/// The event that reports what was read.
pub open spec fn reported_reading<E>(reading: Reading<E>) -> Event<E> {
    match reading {
        Reading::NotPiped => Event::NotPiped,
        Reading::Failed(error) => Event::Failed(error),
        Reading::Read(bytes) => Event::Read(bytes),
    }
}

/// The event that comes of the action that a run waits for in `phase`.
pub open spec fn event_in<E>(phase: Phase, outcomes: Outcomes<E>) -> Event<E> {
    match phase {
        Phase::PreExec => reported(outcomes.pre_exec),
        Phase::Spawn => reported(outcomes.spawn),
        Phase::Wait => match outcomes.exit {
            Some(signal) => Event::Exited(signal),
            None => Event::TimedOut,
        },
        Phase::Kill => reported(outcomes.kill),
        Phase::Reap => reported(outcomes.reap),
        Phase::PostExec(_) => reported(outcomes.post_exec),
        Phase::ReadStdout(_, _) => reported_reading(outcomes.stdout),
        Phase::ReadStderr(_, _) => reported_reading(outcomes.stderr),
        Phase::ObserveStdout(_) | Phase::ObserveStderr(_) | Phase::Finished => Event::Succeeded,
    }
}

/// A standard configurator answers as it was configured: it always gives a
/// child, the one for the bytes of the input; it gives the time limit that was
/// set; and it names the observers that were set.
pub proof fn law_standard_answers<I: HasTargetBytes, E>(
    pre: StdCommandConfigurator,
    input: I,
    phase: Phase,
    event: Event<E>,
    post: StdCommandConfigurator,
    answers: Answers<SpawnPlan, Error>,
)
    requires
        consults(pre, input, phase, event, post, answers),
    ensures
        phase is PreExec && event is Succeeded ==> {
            &&& post@ == pre@.after_spawn()
            &&& answers.plan is Ok
            &&& sets_up(pre@, input, answers.plan->Ok_0@)
        },
        phase is Spawn && event is Succeeded ==> answers.timeout == pre@.timeout,
        phase is PostExec && event is Succeeded ==> answers.stdout == pre@.stdout_observer,
        phase is PostExec && event is Succeeded && answers.stdout is None || phase is ObserveStdout
            ==> answers.stderr == pre@.stderr_observer,
{
}

/// How many actions a run can still name.
pub open spec fn actions_left(phase: Phase) -> nat {
    match phase {
        Phase::PreExec => 10,
        Phase::Spawn => 9,
        Phase::Wait => 8,
        Phase::Kill => 7,
        Phase::Reap => 6,
        Phase::PostExec(_) => 5,
        Phase::ReadStdout(_, _) => 4,
        Phase::ObserveStdout(_) => 3,
        Phase::ReadStderr(_, _) => 2,
        Phase::ObserveStderr(_) => 1,
        Phase::Finished => 0,
    }
}

/// Whether `action` is the one that a run in `phase` waits for.
pub open spec fn waits_for<P, R, E>(phase: Phase, action: Action<P, R, E>) -> bool {
    match phase {
        Phase::PreExec => action is PreExec,
        Phase::Spawn => action is Spawn,
        Phase::Wait => action is Wait,
        Phase::Kill => action is Kill,
        Phase::Reap => action is Reap,
        Phase::PostExec(kind) => action == Action::<P, R, E>::PostExec(kind),
        Phase::ReadStdout(_, _) => action is ReadStdout,
        Phase::ObserveStdout(_) => action is ObserveStdout,
        Phase::ReadStderr(_, _) => action is ReadStderr,
        Phase::ObserveStderr(_) => action is ObserveStderr,
        Phase::Finished => action is Return,
    }
}

/// Every run comes to its end: each event brings it closer, and the action that
/// is named is the one that the run then waits for. Whatever comes of that
/// action is something that the run expects.
pub proof fn law_runs_end<P, R, E>(phase: Phase, event: Event<E>, answers: Answers<P, R>, outcomes: Outcomes<E>)
    requires
        phase.expects(event),
    ensures
        ({
            let (following, action) = next(phase, event, answers);
            &&& actions_left(following) < actions_left(phase)
            &&& waits_for(following, action)
            &&& action is Return <==> following is Finished
            &&& following is Finished || following.expects(event_in(following, outcomes))
        }),
{
}

/// The actions that a run names when it goes on from `phase`.
pub open spec fn actions_from<P, R, E>(phase: Phase, outcomes: Outcomes<E>, answers: Answers<P, R>) -> Seq<
    Action<P, R, E>,
>
    decreases actions_left(phase),
{
    if phase is Finished {
        Seq::empty()
    } else {
        let (following, action) = next(phase, event_in(phase, outcomes), answers);
        seq![action] + actions_from(following, outcomes, answers)
    }
}

/// How the run of a child that was started ends.
pub open spec fn ended<E>(outcomes: Outcomes<E>) -> ExitKind {
    match outcomes.exit {
        Some(Some(signal)) => if signal == 9 {
            ExitKind::Oom
        } else {
            ExitKind::Crash
        },
        Some(None) => ExitKind::Normal,
        None => ExitKind::Timeout,
    }
}

/// The actions that end a run.
pub open spec fn closing<P, R, E>(result: Result<ExitKind, RunError<R, E>>) -> Seq<Action<P, R, E>> {
    seq![Action::Return(result)]
}

/// The actions that deal with the standard error and end the run.
pub open spec fn stderr_script<P, R, E>(outcomes: Outcomes<E>, answers: Answers<P, R>) -> Seq<Action<P, R, E>> {
    match answers.stderr {
        None => closing(Ok(ended(outcomes))),
        Some(handle) => seq![Action::ReadStderr] + match outcomes.stderr {
            Reading::NotPiped => closing(Err(RunError::Executor(Error::IllegalState(NOT_PIPED)))),
            Reading::Failed(error) => closing(Err(RunError::Outside(error))),
            Reading::Read(bytes) => seq![Action::ObserveStderr(handle, bytes)] + closing(
                Ok(ended(outcomes)),
            ),
        },
    }
}

/// The actions that deal with both outputs and end the run.
pub open spec fn stdout_script<P, R, E>(outcomes: Outcomes<E>, answers: Answers<P, R>) -> Seq<Action<P, R, E>> {
    match answers.stdout {
        None => stderr_script(outcomes, answers),
        Some(handle) => seq![Action::ReadStdout] + match outcomes.stdout {
            Reading::NotPiped => closing(Err(RunError::Executor(Error::IllegalState(NOT_PIPED)))),
            Reading::Failed(error) => closing(Err(RunError::Outside(error))),
            Reading::Read(bytes) => seq![Action::ObserveStdout(handle, bytes)] + stderr_script(
                outcomes,
                answers,
            ),
        },
    }
}

/// The actions that follow on a child that was started.
pub open spec fn child_script<P, R, E>(outcomes: Outcomes<E>, answers: Answers<P, R>) -> Seq<Action<P, R, E>> {
    seq![Action::Wait(answers.timeout)] + (if outcomes.exit is None {
        seq![Action::Kill, Action::Reap]
    } else {
        Seq::empty()
    }) + seq![Action::PostExec(ended(outcomes))] + match outcomes.post_exec {
        Ok(()) => stdout_script(outcomes, answers),
        Err(error) => closing(Err(RunError::Outside(error))),
    }
}

/// The actions of a run behind the first, which tells the observers.
pub open spec fn script<P, R, E>(outcomes: Outcomes<E>, answers: Answers<P, R>) -> Seq<Action<P, R, E>> {
    match outcomes.pre_exec {
        Err(error) => closing(Err(RunError::Outside(error))),
        Ok(()) => match answers.plan {
            Err(error) => closing(Err(RunError::Configurator(error))),
            Ok(plan) => seq![Action::Spawn(plan)] + match outcomes.spawn {
                Err(error) => closing(Err(RunError::Outside(error))),
                Ok(()) => child_script(outcomes, answers),
            },
        },
    }
}

/// A run that turns to the standard error follows the script for it.
proof fn lemma_stderr_follows_script<P, R, E>(outcomes: Outcomes<E>, answers: Answers<P, R>)
    ensures
        ({
            let (phase, action) = turn_to_stderr(ended(outcomes), answers.stderr);
            seq![action] + actions_from(phase, outcomes, answers) == stderr_script(outcomes, answers)
        }),
{
    reveal_with_fuel(actions_from, 3);
    let (phase, action) = turn_to_stderr(ended(outcomes), answers.stderr);
    assert(seq![action] + actions_from(phase, outcomes, answers) =~= stderr_script(outcomes, answers));
}

/// A run that turns to the standard output follows the script for it.
proof fn lemma_stdout_follows_script<P, R, E>(outcomes: Outcomes<E>, answers: Answers<P, R>)
    ensures
        ({
            let (phase, action) = turn_to_stdout(ended(outcomes), answers.stdout, answers.stderr);
            seq![action] + actions_from(phase, outcomes, answers) == stdout_script(outcomes, answers)
        }),
{
    reveal_with_fuel(actions_from, 3);
    lemma_stderr_follows_script(outcomes, answers);
    let (phase, action) = turn_to_stdout(ended(outcomes), answers.stdout, answers.stderr);
    assert(seq![action] + actions_from(phase, outcomes, answers) =~= stdout_script(outcomes, answers));
}

/// A run whose child was started follows the script for it.
proof fn lemma_child_follows_script<P, R, E>(outcomes: Outcomes<E>, answers: Answers<P, R>)
    ensures
        seq![Action::Wait(answers.timeout)] + actions_from(Phase::Wait, outcomes, answers)
            == child_script(outcomes, answers),
{
    reveal_with_fuel(actions_from, 5);
    lemma_stdout_follows_script(outcomes, answers);
    assert(seq![Action::Wait(answers.timeout)] + actions_from(Phase::Wait, outcomes, answers)
        =~= child_script(outcomes, answers));
}

/// A run is the sequence of actions that its script gives: tell the observers,
/// start the child, wait for it, kill and reap it if it takes too long, tell
/// the observers how it ended, and give each observed output, standard output
/// first, to its observer. The first failure ends it, other than one to kill or
/// reap the child.
pub proof fn law_run_follows_script<P, R, E>(outcomes: Outcomes<E>, answers: Answers<P, R>)
    ensures
        actions_from(Phase::PreExec, outcomes, answers) == script(outcomes, answers),
{
    reveal_with_fuel(actions_from, 3);
    if outcomes.pre_exec is Ok && answers.plan is Ok && outcomes.spawn is Ok {
        lemma_child_follows_script(outcomes, answers);
    }
    assert(actions_from(Phase::PreExec, outcomes, answers) =~= script(outcomes, answers));
}

/// What dealing with an output comes to: nothing, unless it is observed and
/// cannot be read.
pub open spec fn reading_error<R, E>(observed: bool, reading: Reading<E>) -> Option<RunError<R, E>> {
    match reading {
        Reading::NotPiped if observed => Some(RunError::Executor(Error::IllegalState(NOT_PIPED))),
        Reading::Failed(error) if observed => Some(RunError::Outside(error)),
        _ => None,
    }
}

/// The result of a run.
pub open spec fn run_result<P, R, E>(outcomes: Outcomes<E>, answers: Answers<P, R>) -> Result<
    ExitKind,
    RunError<R, E>,
> {
    if outcomes.pre_exec is Err {
        Err(RunError::Outside(outcomes.pre_exec->Err_0))
    } else if answers.plan is Err {
        Err(RunError::Configurator(answers.plan->Err_0))
    } else if outcomes.spawn is Err {
        Err(RunError::Outside(outcomes.spawn->Err_0))
    } else if outcomes.post_exec is Err {
        Err(RunError::Outside(outcomes.post_exec->Err_0))
    } else if reading_error::<R, E>(answers.stdout is Some, outcomes.stdout) is Some {
        Err(reading_error::<R, E>(answers.stdout is Some, outcomes.stdout)->0)
    } else if reading_error::<R, E>(answers.stderr is Some, outcomes.stderr) is Some {
        Err(reading_error::<R, E>(answers.stderr is Some, outcomes.stderr)->0)
    } else {
        Ok(ended(outcomes))
    }
}

/// A run names its result once, at its end, and the result is the error of the
/// first action that failed or, if none did, how the child ended.
pub proof fn law_run_gives_result<P, R, E>(outcomes: Outcomes<E>, answers: Answers<P, R>)
    ensures
        ({
            let actions = actions_from(Phase::PreExec, outcomes, answers);
            &&& actions.len() > 0
            &&& actions.last() == Action::<P, R, E>::Return(run_result(outcomes, answers))
            &&& forall|i: int| 0 <= i < actions.len() - 1 ==> !(#[trigger] actions[i] is Return)
        }),
{
    law_run_follows_script(outcomes, answers);
}

// A run of an executor.

/// One turn of a run: what came of an action, and the action that the executor
/// named then.
pub struct Turn<T, P, R, E> {
    /// The configurator before the turn.
    pub before: T,
    pub phase: Phase,
    pub event: Event<E>,
    /// The configurator after the turn.
    pub after: T,
    pub following: Phase,
    pub action: Action<P, R, E>,
}

/// Whether the configurator says `answers` in a turn, as far as it is asked.
pub open spec fn answered<I, E, T: CommandConfigurator<I>>(
    turn: Turn<T, T::Plan, T::Error, E>,
    input: I,
    answers: Answers<T::Plan, T::Error>,
) -> bool {
    consults(turn.before, input, turn.phase, turn.event, turn.after, answers)
}

/// Whether a turn is one that [`CommandExecutor::resume`] takes on `input`.
///
/// [`CommandExecutor::resume`]: crate::executor::CommandExecutor::resume
pub open spec fn is_turn<I, E, T: CommandConfigurator<I>>(
    turn: Turn<T, T::Plan, T::Error, E>,
    input: I,
) -> bool {
    exists|answers: Answers<T::Plan, T::Error>|
        {
            &&& (turn.following, turn.action) == #[trigger] next(turn.phase, turn.event, answers)
            &&& consults(turn.before, input, turn.phase, turn.event, turn.after, answers)
        }
}

/// Whether `turns` are those of a run on `input` from some phase to its end,
/// each of which goes on where the one before it stopped, where the actions
/// come to `outcomes`.
pub open spec fn are_turns<I, E, T: CommandConfigurator<I>>(
    turns: Seq<Turn<T, T::Plan, T::Error, E>>,
    input: I,
    outcomes: Outcomes<E>,
) -> bool {
    &&& turns.len() > 0
    &&& turns.last().following is Finished
    &&& forall|k: int|
        #![trigger turns[k]]
        0 <= k < turns.len() ==> {
            &&& is_turn(turns[k], input)
            &&& !(turns[k].phase is Finished)
            &&& turns[k].event == event_in(turns[k].phase, outcomes)
        }
    &&& forall|j: int, k: int|
        #![trigger turns[j], turns[k]]
        0 <= j < k < turns.len() && k == j + 1 ==> {
            &&& turns[k].phase == turns[j].following
            &&& turns[k].before == turns[j].after
        }
}

/// The actions that are named in a sequence of turns.
pub open spec fn named_actions<T, P, R, E>(turns: Seq<Turn<T, P, R, E>>) -> Seq<Action<P, R, E>> {
    turns.map_values(|turn: Turn<T, P, R, E>| turn.action)
}

/// Whether two answers agree on all that can be asked for from `phase` on.
spec fn agree_from<P, R>(phase: Phase, a: Answers<P, R>, b: Answers<P, R>) -> bool {
    &&& actions_left(phase) >= 10 ==> a.plan == b.plan
    &&& actions_left(phase) >= 9 ==> a.timeout == b.timeout
    &&& actions_left(phase) >= 5 ==> a.stdout == b.stdout
    &&& actions_left(phase) >= 3 ==> a.stderr == b.stderr
}

/// What was asked for earlier plays no part in how a run goes on.
proof fn lemma_earlier_answers_play_no_part<P, R, E>(
    phase: Phase,
    outcomes: Outcomes<E>,
    a: Answers<P, R>,
    b: Answers<P, R>,
)
    requires
        agree_from(phase, a, b),
    ensures
        actions_from(phase, outcomes, a) == actions_from(phase, outcomes, b),
    decreases actions_left(phase),
{
    if !(phase is Finished) {
        let event = event_in(phase, outcomes);
        law_runs_end(phase, event, a, outcomes);
        lemma_earlier_answers_play_no_part(next(phase, event, a).0, outcomes, a, b);
    }
}

/// What a configurator says in the turns of a run can be put together in one
/// set of answers.
proof fn lemma_answers_fit_together<I, E, T: CommandConfigurator<I>>(
    turns: Seq<Turn<T, T::Plan, T::Error, E>>,
    input: I,
    outcomes: Outcomes<E>,
) -> (answers: Answers<T::Plan, T::Error>)
    requires
        are_turns(turns, input, outcomes),
    ensures
        named_actions(turns) == actions_from(turns[0].phase, outcomes, answers),
        forall|k: int|
            0 <= k < turns.len() ==> answered(#[trigger] turns[k], input, answers) && actions_left(
                turns[k].phase,
            ) <= actions_left(turns[0].phase),
    decreases turns.len(),
{
    let turn = turns[0];
    let now = choose|answers: Answers<T::Plan, T::Error>|
        {
            &&& (turn.following, turn.action) == #[trigger] next(turn.phase, turn.event, answers)
            &&& consults(turn.before, input, turn.phase, turn.event, turn.after, answers)
        };
    law_runs_end(turn.phase, turn.event, now, outcomes);
    if turns.len() == 1 {
        assert(actions_from(turn.following, outcomes, now) =~= Seq::empty());
        assert(named_actions(turns) =~= actions_from(turn.phase, outcomes, now));
        now
    } else {
        let rest = turns.drop_first();
        assert(forall|k: int| 0 <= k < rest.len() ==> #[trigger] rest[k] == turns[k + 1]);
        assert(turns[1].phase == turn.following);
        assert(are_turns(rest, input, outcomes));
        let later = lemma_answers_fit_together(rest, input, outcomes);
        let answers = match turn.phase {
            Phase::PreExec => Answers { plan: now.plan, ..later },
            Phase::Spawn => Answers { timeout: now.timeout, ..later },
            Phase::PostExec(_) => if now.stdout is None {
                Answers { stdout: now.stdout, stderr: now.stderr, ..later }
            } else {
                Answers { stdout: now.stdout, ..later }
            },
            Phase::ObserveStdout(_) => Answers { stderr: now.stderr, ..later },
            _ => later,
        };
        assert(agree_from(turn.following, answers, later));
        lemma_earlier_answers_play_no_part(turn.following, outcomes, answers, later);
        assert((turn.following, turn.action) == next(turn.phase, turn.event, answers));
        assert(named_actions(turns) =~= seq![turn.action] + named_actions(rest));
        assert forall|k: int| 0 <= k < turns.len() implies answered(
            #[trigger] turns[k],
            input,
            answers,
        ) && actions_left(turns[k].phase) <= actions_left(turn.phase) by {
            if k > 0 {
                assert(rest[k - 1] == turns[k]);
                assert(answered(rest[k - 1], input, later));
            }
        }
        answers
    }
}

/// Calls of [`CommandExecutor::resume`] that follow on each other, from the
/// start of a run to its end, name the actions that the script gives for one set
/// of answers, and that is what the configurator said whenever it was asked.
///
/// [`CommandExecutor::resume`]: crate::executor::CommandExecutor::resume
pub proof fn law_turns_follow_script<I, E, T: CommandConfigurator<I>>(
    turns: Seq<Turn<T, T::Plan, T::Error, E>>,
    input: I,
    outcomes: Outcomes<E>,
)
    requires
        are_turns(turns, input, outcomes),
        turns[0].phase is PreExec,
    ensures
        exists|answers: Answers<T::Plan, T::Error>|
            {
                &&& named_actions(turns) == #[trigger] script(outcomes, answers)
                &&& named_actions(turns).last() == Action::<T::Plan, T::Error, E>::Return(
                    run_result(outcomes, answers),
                )
                &&& forall|k: int|
                    0 <= k < turns.len() ==> answered(#[trigger] turns[k], input, answers)
            },
{
    let answers = lemma_answers_fit_together(turns, input, outcomes);
    law_run_follows_script(outcomes, answers);
    law_run_gives_result(outcomes, answers);
    assert(named_actions(turns) == script(outcomes, answers));
}

} // verus!
