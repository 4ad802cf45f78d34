//! A live model of a command line: argument values, sub-command choices,
//! the assembly of an argument vector, and the lifecycle of the child
//! process that runs it.

pub mod sentence;
pub mod arg_state;
pub mod app_state;
pub mod error;
pub mod child_app;
pub mod run;
