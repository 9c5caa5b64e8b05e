//! What it takes to start a child and hand it its input.
use crate::command::{Command, CommandView};
use crate::input::{HasTargetBytes, InputFile};
use vstd::prelude::*;

verus! {

/// Bytes to put in a file before the child starts.
#[derive(Debug)]
pub struct FileInput {
    /// The file to fill.
    pub file: InputFile,
    /// All that the file should hold.
    pub bytes: Vec<u8>,
}

/// A child to start, and the input to hand it.
#[derive(Debug)]
pub struct SpawnPlan {
    /// The file to fill first, if any.
    pub file: Option<FileInput>,
    /// The process to start.
    pub command: Command,
    /// Whether the bytes of the input are to be written to the child's standard
    /// input once it runs.
    pub feeds_stdin: bool,
}

/// The contents of a [`SpawnPlan`].
#[verifier::ext_equal]
pub struct SpawnPlanView {
    pub file: Option<(Seq<u8>, Seq<u8>)>,
    pub command: CommandView,
    pub feeds_stdin: bool,
}

impl View for SpawnPlan {
    type V = SpawnPlanView;

    open spec fn view(&self) -> SpawnPlanView {
        SpawnPlanView {
            file: match self.file {
                Some(input) => Some((input.file@, input.bytes@)),
                None => None,
            },
            command: self.command@,
            feeds_stdin: self.feeds_stdin,
        }
    }
}

/// One thing to do while a child is started.
#[derive(Debug, Clone, Copy, PartialEq, Eq, Structural)]
pub enum SpawnStep {
    /// Fill the input file.
    WriteFile,
    /// Start the process.
    Start,
    /// Write the input to the child's standard input.
    WriteStdin,
    /// Flush the child's standard input.
    FlushStdin,
    /// Close the child's standard input.
    CloseStdin,
}

/// An operation of the system that failed.
#[derive(Debug)]
pub struct IoFailure<E> {
    /// Whether it failed because the other end of the pipe was closed.
    pub broken_pipe: bool,
    /// The error that it gave.
    pub error: E,
}

/// What follows when a step is over.
#[derive(Debug)]
pub enum SpawnProgress<E> {
    /// Go on with this step.
    Next(SpawnStep),
    /// The child runs and has been handed its input.
    Spawned,
    /// Give up with this error.
    Failed(E),
}

impl SpawnPlanView {
    /// The step that a plan begins with: an input file is filled before the
    /// child that reads it starts.
    pub open spec fn first(self) -> SpawnStep {
        if self.file is Some {
            SpawnStep::WriteFile
        } else {
            SpawnStep::Start
        }
    }

    /// What follows on a step, given how it went. A child that closes its
    /// standard input early is no failure, and what comes of closing the pipe
    /// plays no part.
    pub open spec fn after<E>(self, step: SpawnStep, outcome: Result<(), IoFailure<E>>) -> SpawnProgress<
        E,
    > {
        match (step, outcome) {
            (SpawnStep::CloseStdin, _) => SpawnProgress::Spawned,
            (SpawnStep::WriteFile, Ok(())) => SpawnProgress::Next(SpawnStep::Start),
            (SpawnStep::Start, Ok(())) => if self.feeds_stdin {
                SpawnProgress::Next(SpawnStep::WriteStdin)
            } else {
                SpawnProgress::Spawned
            },
            (SpawnStep::WriteStdin, Ok(())) => SpawnProgress::Next(SpawnStep::FlushStdin),
            (SpawnStep::FlushStdin, Ok(())) => SpawnProgress::Next(SpawnStep::CloseStdin),
            (SpawnStep::WriteFile | SpawnStep::Start, Err(failure)) => SpawnProgress::Failed(
                failure.error,
            ),
            (SpawnStep::WriteStdin | SpawnStep::FlushStdin, Err(failure)) => if failure.broken_pipe {
                SpawnProgress::Next(SpawnStep::CloseStdin)
            } else {
                SpawnProgress::Failed(failure.error)
            },
        }
    }
}

impl SpawnPlan {
    /// The step to begin with.
    pub fn first(&self) -> (step: SpawnStep)
        ensures
            step == self@.first(),
    {
        if self.file.is_some() {
            SpawnStep::WriteFile
        } else {
            SpawnStep::Start
        }
    }

    /// What to do when `step` is over, given how it went.
    pub fn after<E>(&self, step: SpawnStep, outcome: Result<(), IoFailure<E>>) -> (progress: SpawnProgress<
        E,
    >)
        ensures
            progress == self@.after(step, outcome),
    {
        match step {
            SpawnStep::WriteFile => match outcome {
                Ok(()) => SpawnProgress::Next(SpawnStep::Start),
                Err(failure) => SpawnProgress::Failed(failure.error),
            },
            SpawnStep::Start => match outcome {
                Ok(()) => {
                    if self.feeds_stdin {
                        SpawnProgress::Next(SpawnStep::WriteStdin)
                    } else {
                        SpawnProgress::Spawned
                    }
                },
                Err(failure) => SpawnProgress::Failed(failure.error),
            },
            SpawnStep::WriteStdin => match outcome {
                Ok(()) => SpawnProgress::Next(SpawnStep::FlushStdin),
                Err(failure) => tolerate_broken_pipe(failure),
            },
            SpawnStep::FlushStdin => match outcome {
                Ok(()) => SpawnProgress::Next(SpawnStep::CloseStdin),
                Err(failure) => tolerate_broken_pipe(failure),
            },
            SpawnStep::CloseStdin => SpawnProgress::Spawned,
        }
    }

    /// What to write to the child's standard input, if anything: the bytes of
    /// the input, which are asked for here and not before.
    pub fn stdin_input<I: HasTargetBytes>(&self, input: &I) -> (bytes: Option<Vec<u8>>)
        ensures
            match bytes {
                Some(bytes) => self@.feeds_stdin && call_ensures(I::target_bytes, (input,), bytes),
                None => !self@.feeds_stdin,
            },
            bytes is Some <==> self.feeds_stdin,
    {
        if self.feeds_stdin {
            Some(input.target_bytes())
        } else {
            None
        }
    }
}

/// What follows when the child's standard input could not be written to.
fn tolerate_broken_pipe<E>(failure: IoFailure<E>) -> (progress: SpawnProgress<E>)
    ensures
        progress == (if failure.broken_pipe {
            SpawnProgress::Next(SpawnStep::CloseStdin)
        } else {
            SpawnProgress::Failed(failure.error)
        }),
{
    if failure.broken_pipe {
        SpawnProgress::Next(SpawnStep::CloseStdin)
    } else {
        SpawnProgress::Failed(failure.error)
    }
}

} // verus!
