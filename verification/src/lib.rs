//! Fans one git subcommand out over a configured set of local repositories.
//!
//! The crate holds the decisions of such a run: which repositories are
//! selected, which process is started next, how each outcome is recorded and
//! what is reported. Starting processes and writing to the terminal is left to
//! the caller.
//!
//! - [`registry`] loads the repositories from a parsed configuration and
//!   narrows them by alias.
//! - [`command`] names the operations and the process that each asks for.
//! - [`process`] describes a process to start and what came of it.
//! - [`checkout`] is the strategy of checking out a branch with a fallback.
//! - [`dispatch`] passes over the repositories, one process at a time.
//! - [`report`] says what is written, and on which channel.
//! - [`laws`] states what holds of every dispatch.

pub mod checkout;
pub mod command;
pub mod dispatch;
pub mod laws;
pub mod process;
pub mod registry;
pub mod report;
