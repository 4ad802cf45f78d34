//! Why a run could not start.
use crate::arg_state::ArgsError;
use vstd::prelude::*;

verus! {

/// Why a run could not start.
#[derive(Debug)]
pub enum ExecutionError {
    /// The system refused an operation; holds its description.
    IoError(String),
    /// The command line rejected a value without saying which argument.
    NoValidationName,
    /// The command line rejected the arguments; holds its message.
    MatchError(String),
    /// The child process offered no output stream.
    NoStdoutOrStderr,
    /// The command line rejected the value of an argument.
    ValidationError { name: String, message: String },
    /// A message for the user.
    GuiError(String),
    /// The argument vector could not be assembled.
    Args(ArgsError),
    /// An environment variable has an empty name.
    EmptyEnvKey,
    /// The argument vector names no program.
    NoProgram,
}

/// What the command line said when it rejected a list of arguments.
#[derive(Debug, Clone)]
pub struct MatchFailure {
    /// The rejection is of a value (clap's `ErrorKind::ValueValidation`).
    pub value_validation: bool,
    /// The first piece of context of the rejection: its kind and its value.
    pub context: Option<(String, String)>,
    /// The rejection as clap renders it.
    pub message: String,
}

/// The error for a rejection by the command line: a rejected value names its
/// argument and message where the rejection says them.
pub open spec fn match_error(f: MatchFailure) -> ExecutionError {
    if f.value_validation {
        match f.context {
            Some((name, message)) => ExecutionError::ValidationError { name, message },
            None => ExecutionError::NoValidationName,
        }
    } else {
        ExecutionError::MatchError(f.message)
    }
}

impl From<MatchFailure> for ExecutionError {
    fn from(f: MatchFailure) -> (r: Self) {
        if f.value_validation {
            match f.context {
                Some((name, message)) => ExecutionError::ValidationError { name, message },
                None => ExecutionError::NoValidationName,
            }
        } else {
            ExecutionError::MatchError(f.message)
        }
    }
}

impl vstd::std_specs::convert::FromSpecImpl<MatchFailure> for ExecutionError {
    open spec fn obeys_from_spec() -> bool {
        true
    }

    open spec fn from_spec(f: MatchFailure) -> Self {
        match_error(f)
    }
}

impl From<String> for ExecutionError {
    fn from(message: String) -> (r: Self) {
        ExecutionError::GuiError(message)
    }
}

impl vstd::std_specs::convert::FromSpecImpl<String> for ExecutionError {
    open spec fn obeys_from_spec() -> bool {
        true
    }

    open spec fn from_spec(message: String) -> Self {
        ExecutionError::GuiError(message)
    }
}

impl From<ArgsError> for ExecutionError {
    fn from(err: ArgsError) -> (r: Self) {
        ExecutionError::Args(err)
    }
}

impl vstd::std_specs::convert::FromSpecImpl<ArgsError> for ExecutionError {
    open spec fn obeys_from_spec() -> bool {
        true
    }

    open spec fn from_spec(err: ArgsError) -> Self {
        ExecutionError::Args(err)
    }
}

} // verus!
