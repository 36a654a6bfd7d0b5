//! Orchestration of a two-pass GIF encoding: the rules that decide what an
//! external encoder is asked to do, in which order, and how its failures are
//! reported. Nothing here touches the filesystem or spawns a process; a driver
//! performs each requested action and hands back what happened.
//!
//! - [`cli`] describes the command line.
//! - [`options`] admits the two paths of a run.
//! - [`command`] builds the two invocations of the encoder.
//! - [`process`] judges what became of a subprocess.
//! - [`error`] tells a failure to the user.
//! - [`pipeline`] is the run as a state machine, and [`trace`] states what
//!   holds of every run.
//! - [`text`] writes numbers in decimal.

pub mod cli;
pub mod command;
pub mod error;
pub mod options;
pub mod pipeline;
pub mod process;
pub mod text;
pub mod trace;
