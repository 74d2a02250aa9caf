//! Drives an external formatter of Move source code: turns a validated request
//! into the argument vector of the child process, and turns what the child
//! process reported into a typed outcome.
//!
//! The library starts no process and reads no file. Its caller resolves the
//! formatter's executable, asks [`FmtCommand::prepare`] what to run, runs it,
//! and hands the result to [`Invocation::conclude`].

pub mod arguments;
pub mod guarantees;
pub mod key_order;
pub mod outcome;
pub mod overrides;
pub mod request;

pub use outcome::{classify, interpret, Completion, FormatError, Invocation, ProcessOutput};
pub use overrides::ConfigOverrides;
pub use request::{EmitMode, Fmt, FmtCommand, RequestError, Target, Verbosity};
