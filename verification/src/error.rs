//! The errors that the library itself raises.
use vstd::prelude::*;

verus! {

/// What the library refuses to do, and why.
#[derive(Debug, Clone, Copy, PartialEq, Eq)]
pub enum Error {
    /// The caller asked for something that cannot be built.
    IllegalArgument(&'static str),
    /// The executor met a state that it cannot go on from.
    IllegalState(&'static str),
}

/// The message of the error that a builder without a program gives.
pub const NO_PROGRAM: &'static str = "CommandExecutor::builder: no program set!";

/// The message of the error that an observed stream gives when the child was
/// started without a pipe for it.
pub const NOT_PIPED: &'static str =
    "Observer tries to read stderr, but stderr was not `Stdio::pipe` in CommandExecutor";

} // verus!
