//! One run of the target, as a sequence of actions and their outcomes.
//!
//! The executor names an action, the caller performs it and reports what
//! happened, and the executor names the next one, until it names the result.
use crate::configurator::CommandConfigurator;
use crate::error::{Error, NOT_PIPED};
use crate::handle::{Handle, StdErrObserver, StdOutObserver};
use core::time::Duration;
use vstd::prelude::*;

verus! {

/// How a run of the target ended.
#[derive(Debug, Clone, Copy, PartialEq, Eq, Structural)]
pub enum ExitKind {
    /// The target exited by itself.
    Normal,
    /// A signal ended the target.
    Crash,
    /// The target ran out of memory.
    Oom,
    /// The target ran for too long.
    Timeout,
}

/// The signal with which the system ends a process that is out of memory.
pub const SIGKILL: i32 = 9;

/// How a run ended whose target exited, given the signal that ended it, if any.
pub open spec fn exit_kind_of(signal: Option<i32>) -> ExitKind {
    match signal {
        Some(signal) => if signal == SIGKILL {
            ExitKind::Oom
        } else {
            ExitKind::Crash
        },
        None => ExitKind::Normal,
    }
}

/// Tells how a run ended whose target exited.
pub fn exit_kind(signal: Option<i32>) -> (kind: ExitKind)
    ensures
        kind == exit_kind_of(signal),
        kind is Normal <==> signal is None,
        kind is Oom <==> signal == Some(9i32),
        kind is Crash <==> signal is Some && signal != Some(9i32),
{
    match signal {
        Some(signal) => {
            if signal == SIGKILL {
                ExitKind::Oom
            } else {
                ExitKind::Crash
            }
        },
        None => ExitKind::Normal,
    }
}

/// Why a run gave no result.
#[derive(Debug)]
pub enum RunError<R, E> {
    /// The configurator could not set up the child.
    Configurator(R),
    /// The executor refused to go on.
    Executor(Error),
    /// An action failed with this error.
    Outside(E),
}

/// What to do next. A configurator sets the child up with a `P` or an `R`, and
/// actions fail with an `E`.
#[derive(Debug)]
pub enum Action<P, R, E> {
    /// Tell every observer that a child is about to run.
    PreExec,
    /// Start a child.
    Spawn(P),
    /// Wait for the child, for this long at most.
    Wait(Duration),
    /// Kill the child.
    Kill,
    /// Wait for the killed child, so that the system can clean up.
    Reap,
    /// Tell every observer how the run ended.
    PostExec(ExitKind),
    /// Read the child's standard output to its end.
    ReadStdout,
    /// Give the observer what the child wrote to its standard output.
    ObserveStdout(Handle<StdOutObserver>, Vec<u8>),
    /// Read the child's standard error to its end.
    ReadStderr,
    /// Give the observer what the child wrote to its standard error.
    ObserveStderr(Handle<StdErrObserver>, Vec<u8>),
    /// The run is over, with this result.
    Return(Result<ExitKind, RunError<R, E>>),
}

/// What came of an action.
#[derive(Debug)]
pub enum Event<E> {
    /// It succeeded.
    Succeeded,
    /// It failed.
    Failed(E),
    /// The child exited; the signal that ended it, if any.
    Exited(Option<i32>),
    /// The child still runs.
    TimedOut,
    /// There is no pipe to read from.
    NotPiped,
    /// All that the child wrote.
    Read(Vec<u8>),
}

/// How far a run has come: the action that it waits for, and what it has to
/// remember meanwhile.
#[derive(Debug)]
pub enum Phase {
    /// Waits for [`Action::PreExec`].
    PreExec,
    /// Waits for [`Action::Spawn`].
    Spawn,
    /// Waits for [`Action::Wait`].
    Wait,
    /// Waits for [`Action::Kill`].
    Kill,
    /// Waits for [`Action::Reap`].
    Reap,
    /// Waits for [`Action::PostExec`].
    PostExec(ExitKind),
    /// Waits for [`Action::ReadStdout`].
    ReadStdout(ExitKind, Handle<StdOutObserver>),
    /// Waits for [`Action::ObserveStdout`].
    ObserveStdout(ExitKind),
    /// Waits for [`Action::ReadStderr`].
    ReadStderr(ExitKind, Handle<StdErrObserver>),
    /// Waits for [`Action::ObserveStderr`].
    ObserveStderr(ExitKind),
    /// The run is over.
    Finished,
}

impl Phase {
    /// Whether `event` can come of the action that the run waits for.
    pub open spec fn expects<E>(self, event: Event<E>) -> bool {
        match self {
            Phase::PreExec | Phase::Spawn | Phase::Kill | Phase::Reap | Phase::PostExec(_) => {
                event is Succeeded || event is Failed
            },
            Phase::Wait => event is Exited || event is TimedOut,
            Phase::ReadStdout(_, _) | Phase::ReadStderr(_, _) => {
                event is Read || event is NotPiped || event is Failed
            },
            Phase::ObserveStdout(_) | Phase::ObserveStderr(_) => event is Succeeded,
            Phase::Finished => false,
        }
    }

    /// Tells whether `event` can come of the action that the run waits for.
    pub fn accepts<E>(&self, event: &Event<E>) -> (accepted: bool)
        ensures
            accepted == self.expects(*event),
    {
        match self {
            Phase::PreExec | Phase::Spawn | Phase::Kill | Phase::Reap | Phase::PostExec(_) => {
                matches!(event, Event::Succeeded | Event::Failed(_))
            },
            Phase::Wait => matches!(event, Event::Exited(_) | Event::TimedOut),
            Phase::ReadStdout(_, _) | Phase::ReadStderr(_, _) => {
                matches!(event, Event::Read(_) | Event::NotPiped | Event::Failed(_))
            },
            Phase::ObserveStdout(_) | Phase::ObserveStderr(_) => matches!(event, Event::Succeeded),
            Phase::Finished => false,
        }
    }
}

/// What a configurator says during a run.
pub struct Answers<P, R> {
    /// The child to start.
    pub plan: Result<P, R>,
    /// How long it may run.
    pub timeout: Duration,
    /// The observer of its standard output.
    pub stdout: Option<Handle<StdOutObserver>>,
    /// The observer of its standard error.
    pub stderr: Option<Handle<StdErrObserver>>,
}

/// The end of a run.
pub open spec fn finish<P, R, E>(result: Result<ExitKind, RunError<R, E>>) -> (Phase, Action<P, R, E>) {
    (Phase::Finished, Action::Return(result))
}

/// How a run goes on when the standard output has been dealt with: with the
/// standard error if it is observed, else it is over.
pub open spec fn turn_to_stderr<P, R, E>(
    kind: ExitKind,
    stderr: Option<Handle<StdErrObserver>>,
) -> (Phase, Action<P, R, E>) {
    match stderr {
        Some(handle) => (Phase::ReadStderr(kind, handle), Action::ReadStderr),
        None => finish(Ok(kind)),
    }
}

/// How a run goes on when all observers know how it ended: with the standard
/// output if it is observed.
pub open spec fn turn_to_stdout<P, R, E>(
    kind: ExitKind,
    stdout: Option<Handle<StdOutObserver>>,
    stderr: Option<Handle<StdErrObserver>>,
) -> (Phase, Action<P, R, E>) {
    match stdout {
        Some(handle) => (Phase::ReadStdout(kind, handle), Action::ReadStdout),
        None => turn_to_stderr(kind, stderr),
    }
}

/// How a run goes on from `phase` when `event` comes of the action that it
/// waits for, given what the configurator says.
pub open spec fn next<P, R, E>(phase: Phase, event: Event<E>, answers: Answers<P, R>) -> (
    Phase,
    Action<P, R, E>,
)
    recommends
        phase.expects(event),
{
    match (phase, event) {
        (Phase::PreExec, Event::Succeeded) => match answers.plan {
            Ok(plan) => (Phase::Spawn, Action::Spawn(plan)),
            Err(error) => finish(Err(RunError::Configurator(error))),
        },
        (Phase::Spawn, Event::Succeeded) => (Phase::Wait, Action::Wait(answers.timeout)),
        (Phase::Wait, Event::Exited(signal)) => (
            Phase::PostExec(exit_kind_of(signal)),
            Action::PostExec(exit_kind_of(signal)),
        ),
        (Phase::Wait, _) => (Phase::Kill, Action::Kill),
        // Whether the child could be killed and waited for plays no part: it
        // may have exited meanwhile.
        (Phase::Kill, _) => (Phase::Reap, Action::Reap),
        (Phase::Reap, _) => (
            Phase::PostExec(ExitKind::Timeout),
            Action::PostExec(ExitKind::Timeout),
        ),
        (Phase::PostExec(kind), Event::Succeeded) => turn_to_stdout(
            kind,
            answers.stdout,
            answers.stderr,
        ),
        (Phase::ReadStdout(kind, handle), Event::Read(bytes)) => (
            Phase::ObserveStdout(kind),
            Action::ObserveStdout(handle, bytes),
        ),
        (Phase::ObserveStdout(kind), _) => turn_to_stderr(kind, answers.stderr),
        (Phase::ReadStderr(kind, handle), Event::Read(bytes)) => (
            Phase::ObserveStderr(kind),
            Action::ObserveStderr(handle, bytes),
        ),
        (Phase::ObserveStderr(kind), _) => finish(Ok(kind)),
        (_, Event::Failed(error)) => finish(Err(RunError::Outside(error))),
        (_, _) => finish(Err(RunError::Executor(Error::IllegalState(NOT_PIPED)))),
    }
}

/// Whether `answers` is what the configurator says when `event` comes of the
/// action that `phase` waits for, as far as it is asked then, and `post` is
/// what the configurator is afterwards. It is asked
/// * for the child when the observers are ready for it,
/// * for the time limit when the child runs,
/// * for the observer of the standard output when the run has been reported,
/// * for the observer of the standard error when the standard output has been
///   dealt with.
pub open spec fn consults<I, E, T: CommandConfigurator<I>>(
    pre: T,
    input: I,
    phase: Phase,
    event: Event<E>,
    post: T,
    answers: Answers<T::Plan, T::Error>,
) -> bool {
    &&& if phase is PreExec && event is Succeeded {
        T::spawns(pre, input, post, answers.plan)
    } else {
        post == pre
    }
    &&& phase is Spawn && event is Succeeded ==> call_ensures(
        <T as CommandConfigurator<I>>::exec_timeout,
        (&pre,),
        answers.timeout,
    )
    &&& phase is PostExec && event is Succeeded ==> call_ensures(
        <T as CommandConfigurator<I>>::stdout_observer,
        (&pre,),
        answers.stdout,
    )
    &&& (phase is PostExec && event is Succeeded && answers.stdout is None || phase is ObserveStdout)
        ==> call_ensures(
        <T as CommandConfigurator<I>>::stderr_observer,
        (&pre,),
        answers.stderr,
    )
}

} // verus!
