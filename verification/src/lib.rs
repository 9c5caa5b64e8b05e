//! Executes a target program as a child process, once per input.
//!
//! The library decides everything that can be decided without touching the
//! operating system: how a command line is assembled, where an input goes,
//! which streams are captured, and what the outcome of a run is. Starting
//! processes and moving bytes is left to the caller, who performs the actions
//! that the library names and reports back what happened.
pub mod builder;
pub mod bytes;
pub mod command;
pub mod configurator;
pub mod env;
pub mod error;
pub mod executor;
pub mod guarantees;
pub mod handle;
pub mod input;
pub mod laws;
pub mod path;
pub mod run;
pub mod spawn;
