//! The executor.
use crate::builder::{BuilderView, CommandExecutorBuilder};
use crate::configurator::CommandConfigurator;
use crate::error::{Error, NOT_PIPED};
use crate::handle::{Handle, StdErrObserver};
use crate::run::{
    consults, exit_kind, next, turn_to_stderr, Action, Answers, Event, ExitKind, Phase, RunError,
};
use core::marker::PhantomData;
use vstd::prelude::*;

verus! {

/// Executes a target as a child process.
///
/// Construct one by implementing [`CommandConfigurator`] for a type of your
/// choice and calling `into_executor` on it, or with
/// [`CommandExecutor::builder`].
///
/// [`CommandConfigurator`]: crate::configurator::CommandConfigurator
pub struct CommandExecutor<OT, S, T> {
    /// Sets up the children.
    configurer: T,
    /// The observers of the runs.
    observers: OT,
    phantom: PhantomData<S>,
}

impl CommandExecutor<(), (), ()> {
    /// A builder for an executor that is backed by a
    /// [`StdCommandConfigurator`], usually the easiest way to get one. You will
    /// use `arg`, `args`, `env` and so on.
    ///
    /// The input goes to the standard input, unless you choose
    /// * `arg_input_arg` for an input that is an argument itself,
    /// * `arg_input_file` for an input in a file of a given name,
    /// * `arg_input_file_std` for an input in a file of the default name.
    ///
    /// [`StdCommandConfigurator`]: crate::configurator::StdCommandConfigurator
    #[must_use]
    pub fn builder() -> (builder: CommandExecutorBuilder)
        ensures
            builder@ == BuilderView::new(),
    {
        CommandExecutorBuilder::new()
    }
}

impl<OT, S, T> CommandExecutor<OT, S, T> {
    /// The configurator that sets up the children.
    pub closed spec fn configured(&self) -> T {
        self.configurer
    }

    /// The observers of the runs.
    pub closed spec fn observed_by(&self) -> OT {
        self.observers
    }

    /// An executor of the children that `configurer` sets up.
    pub(crate) fn new(configurer: T, observers: OT) -> (executor: Self)
        ensures
            executor.configured() == configurer,
            executor.observed_by() == observers,
    {
        CommandExecutor { configurer, observers, phantom: PhantomData }
    }

    /// Accesses the configurator to change it.
    pub fn inner(&mut self) -> (configurer: &mut T)
        ensures
            *configurer == old(self).configured(),
            final(self).configured() == *final(configurer),
            final(self).observed_by() == old(self).observed_by(),
    {
        &mut self.configurer
    }

    /// Accesses the configurator to read it.
    pub fn configurer(&self) -> (configurer: &T)
        ensures
            *configurer == self.configured(),
    {
        &self.configurer
    }

    /// Accesses the observers.
    pub fn observers(&self) -> (observers: &OT)
        ensures
            *observers == self.observed_by(),
    {
        &self.observers
    }

    /// Accesses the observers to change them.
    pub fn observers_mut(&mut self) -> (observers: &mut OT)
        ensures
            *observers == old(self).observed_by(),
            final(self).observed_by() == *final(observers),
            final(self).configured() == old(self).configured(),
    {
        &mut self.observers
    }

    /// Begins a run on an input of type `I`: counts it, and asks for the
    /// observers to be told. Go on with [`Self::resume`].
    pub fn run_target<I, E>(&self, executions: &mut u64) -> (step: (
        Phase,
        Action<T::Plan, T::Error, E>,
    )) where T: CommandConfigurator<I>
        requires
            *old(executions) < u64::MAX,
        ensures
            *final(executions) == *old(executions) + 1,
            step == (Phase::PreExec, Action::<T::Plan, T::Error, E>::PreExec),
    {
        *executions = *executions + 1;
        (Phase::PreExec, Action::PreExec)
    }

    /// Goes on with the run of the target on `input` when `event` came of the
    /// action that `phase` waits for.
    pub fn resume<I, E>(&mut self, input: &I, phase: Phase, event: Event<E>) -> (step: (
        Phase,
        Action<T::Plan, T::Error, E>,
    )) where T: CommandConfigurator<I>
        requires
            phase.expects(event),
        ensures
            exists|answers: Answers<T::Plan, T::Error>|
                {
                    &&& step == #[trigger] next(phase, event, answers)
                    &&& consults(
                        old(self).configured(),
                        *input,
                        phase,
                        event,
                        final(self).configured(),
                        answers,
                    )
                },
            final(self).observed_by() == old(self).observed_by(),
    {
        let ghost mut answers: Answers<T::Plan, T::Error> = arbitrary();
        let step = match (phase, event) {
            (Phase::PreExec, Event::Succeeded) => {
                let plan = self.configurer.spawn_child(input);
                proof {
                    answers = Answers { plan, ..answers };
                }
                match plan {
                    Ok(plan) => (Phase::Spawn, Action::Spawn(plan)),
                    Err(error) => Self::give_up(RunError::Configurator(error)),
                }
            },
            (Phase::Spawn, Event::Succeeded) => {
                let timeout = self.configurer.exec_timeout();
                proof {
                    answers = Answers { timeout, ..answers };
                }
                (Phase::Wait, Action::Wait(timeout))
            },
            (Phase::Wait, Event::Exited(signal)) => {
                let kind = exit_kind(signal);
                (Phase::PostExec(kind), Action::PostExec(kind))
            },
            (Phase::Wait, _) => (Phase::Kill, Action::Kill),
            (Phase::Kill, _) => (Phase::Reap, Action::Reap),
            (Phase::Reap, _) => {
                (Phase::PostExec(ExitKind::Timeout), Action::PostExec(ExitKind::Timeout))
            },
            (Phase::PostExec(kind), Event::Succeeded) => {
                let stdout = self.configurer.stdout_observer();
                proof {
                    answers = Answers { stdout, ..answers };
                }
                match stdout {
                    Some(handle) => (Phase::ReadStdout(kind, handle), Action::ReadStdout),
                    None => {
                        let stderr = self.configurer.stderr_observer();
                        proof {
                            answers = Answers { stderr, ..answers };
                        }
                        Self::read_stderr(kind, stderr)
                    },
                }
            },
            (Phase::ReadStdout(kind, handle), Event::Read(bytes)) => {
                (Phase::ObserveStdout(kind), Action::ObserveStdout(handle, bytes))
            },
            (Phase::ObserveStdout(kind), _) => {
                let stderr = self.configurer.stderr_observer();
                proof {
                    answers = Answers { stderr, ..answers };
                }
                Self::read_stderr(kind, stderr)
            },
            (Phase::ReadStderr(kind, handle), Event::Read(bytes)) => {
                (Phase::ObserveStderr(kind), Action::ObserveStderr(handle, bytes))
            },
            (Phase::ObserveStderr(kind), _) => (Phase::Finished, Action::Return(Ok(kind))),
            (_, Event::Failed(error)) => Self::give_up(RunError::Outside(error)),
            (_, _) => Self::give_up(RunError::Executor(Error::IllegalState(NOT_PIPED))),
        };
        assert(step == next(phase, event, answers));
        step
    }

    /// Reads the standard error next if it is observed, else ends the run.
    fn read_stderr<P, R, E>(kind: ExitKind, stderr: Option<Handle<StdErrObserver>>) -> (step: (
        Phase,
        Action<P, R, E>,
    ))
        ensures
            step == turn_to_stderr::<P, R, E>(kind, stderr),
    {
        match stderr {
            Some(handle) => (Phase::ReadStderr(kind, handle), Action::ReadStderr),
            None => (Phase::Finished, Action::Return(Ok(kind))),
        }
    }

    /// Ends the run without a result.
    fn give_up<P, R, E>(error: RunError<R, E>) -> (step: (Phase, Action<P, R, E>))
        ensures
            step == (Phase::Finished, Action::<P, R, E>::Return(Err(error))),
    {
        (Phase::Finished, Action::Return(Err(error)))
    }
}

} // verus!
