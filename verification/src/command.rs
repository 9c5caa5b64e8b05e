//! A description of the process to start.
use crate::bytes::{copy_bytes, copy_list, copy_option, list_view, option_view};
use crate::env::EnvVars;
use vstd::prelude::*;

verus! {

/// What a standard stream of the child is connected to.
#[derive(Debug, Clone, Copy, PartialEq, Eq, Structural)]
pub enum Stdio {
    /// The stream of the parent.
    Inherit,
    /// Nothing: reads are empty, writes are thrown away.
    Null,
    /// A pipe whose other end the parent holds.
    Piped,
}

/// The contents of a [`Command`].
#[verifier::ext_equal]
pub struct CommandView {
    pub program: Seq<u8>,
    pub args: Seq<Seq<u8>>,
    pub envs: Map<Seq<u8>, Seq<u8>>,
    pub cwd: Option<Seq<u8>>,
    pub stdin: Stdio,
    pub stdout: Stdio,
    pub stderr: Stdio,
}

impl CommandView {
    /// A command without arguments that inherits everything from its parent.
    pub open spec fn new(program: Seq<u8>) -> Self {
        CommandView {
            program,
            args: Seq::empty(),
            envs: Map::empty(),
            cwd: None,
            stdin: Stdio::Inherit,
            stdout: Stdio::Inherit,
            stderr: Stdio::Inherit,
        }
    }
}

/// The process to start: a program, its arguments, the variables that are set
/// on top of the inherited environment, its directory and its streams.
#[derive(Debug)]
pub struct Command {
    pub program: Vec<u8>,
    pub args: Vec<Vec<u8>>,
    pub envs: EnvVars,
    pub cwd: Option<Vec<u8>>,
    pub stdin: Stdio,
    pub stdout: Stdio,
    pub stderr: Stdio,
}

impl View for Command {
    type V = CommandView;

    open spec fn view(&self) -> CommandView {
        CommandView {
            program: self.program@,
            args: list_view(self.args@),
            envs: self.envs@,
            cwd: option_view(self.cwd),
            stdin: self.stdin,
            stdout: self.stdout,
            stderr: self.stderr,
        }
    }
}

impl Clone for Command {
    fn clone(&self) -> (copy: Self)
        ensures
            copy@ == self@,
    {
        Command {
            program: copy_bytes(&self.program),
            args: copy_list(&self.args),
            envs: self.envs.clone(),
            cwd: copy_option(&self.cwd),
            stdin: self.stdin,
            stdout: self.stdout,
            stderr: self.stderr,
        }
    }
}

impl Command {
    /// A command that runs `program` without arguments and inherits the
    /// parent's environment, directory and streams.
    pub fn new(program: &[u8]) -> (command: Self)
        ensures
            command@ == CommandView::new(program@),
    {
        let command = Command {
            program: copy_bytes(program),
            args: Vec::new(),
            envs: EnvVars::new(),
            cwd: None,
            stdin: Stdio::Inherit,
            stdout: Stdio::Inherit,
            stderr: Stdio::Inherit,
        };
        assert(command@ =~= CommandView::new(program@));
        command
    }
}

} // verus!
