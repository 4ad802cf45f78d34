//! The steps of a run request before anything is spawned: assemble the
//! argument vector, take the command line's verdict on it, check the
//! environment, and show any error on the argument it concerns.
use crate::app_state::AppState;
use crate::arg_state::{texts, ArgsError};
use crate::child_app::{check_env_keys, env_keys_ok};
use crate::error::{match_error, ExecutionError, MatchFailure};
use vstd::prelude::*;

verus! {

/// The message shown on a required argument left empty.
pub const REQUIRED_FIELD_MISSING: &'static str = "required-field-missing";

/// The message shown on a flag or counter that has no spelling.
pub const INTERNAL_ERROR: &'static str = "internal-error";

/// The argument that an assembly error concerns, and the message shown on it.
pub open spec fn error_target(e: ArgsError) -> Option<(Seq<char>, Seq<char>)> {
    match e {
        ArgsError::MissingRequired(id) => Some((id@, REQUIRED_FIELD_MISSING@)),
        ArgsError::NoCallName(id) => Some((id@, INTERNAL_ERROR@)),
        ArgsError::MissingSubcommand => None,
    }
}

/// `new` is `old` with every error cleared, then the error `e` shown on the
/// argument it concerns.
pub open spec fn failure_shown(old: AppState, new: AppState, e: ArgsError) -> bool {
    match error_target(e) {
        Some((id, message)) => exists|mid: AppState| old.cleared(mid) && mid.painted(new, id, message),
        None => old.cleared(new),
    }
}

/// Assembles the argument vector of `state` for a run. Clears every error
/// shown; on an assembly error shows it on the argument it concerns and
/// fails, so that nothing is spawned. The vector then goes to the command
/// line for checking, and its verdict to `conclude_execution`.
pub fn try_start_execution(state: &mut AppState) -> (r: Result<Vec<String>, ExecutionError>)
    ensures
        match old(state).tokens() {
            Err(e) => r == Err::<Vec<String>, ExecutionError>(ExecutionError::Args(e))
                && failure_shown(*old(state), *final(state), e),
            Ok(t) => r is Ok && texts(r->Ok_0@) == t && old(state).cleared(*final(state)),
        },
{
    let assembled = state.get_cmd_args(Vec::new());
    assert(texts(Seq::<String>::empty()) =~= Seq::<Seq<char>>::empty());
    state.clear_validation_errors();
    match assembled {
        Err(e) => {
            match &e {
                ArgsError::MissingRequired(id) => {
                    state.update_validation_error(id.as_str(), REQUIRED_FIELD_MISSING);
                },
                ArgsError::NoCallName(id) => {
                    state.update_validation_error(id.as_str(), INTERNAL_ERROR);
                },
                ArgsError::MissingSubcommand => {},
            }
            Err(ExecutionError::Args(e))
        },
        Ok(args) => Ok(args),
    }
}

/// The outcome of a run request once the command line has checked the
/// argument vector `args`: a rejection of a value is shown on the argument
/// it names; an accepted vector still needs every environment variable to
/// have a name.
pub fn conclude_execution(
    state: &mut AppState,
    args: Vec<String>,
    check: Result<(), MatchFailure>,
    env: &Option<Vec<(String, String)>>,
) -> (r: Result<Vec<String>, ExecutionError>)
    ensures
        match check {
            Err(f) => {
                &&& r == Err::<Vec<String>, ExecutionError>(match_error(f))
                &&& match match_error(f) {
                    ExecutionError::ValidationError { name, message } => old(state).painted(
                        *final(state),
                        name@,
                        message@,
                    ),
                    _ => *final(state) == *old(state),
                }
            },
            Ok(()) => {
                &&& *final(state) == *old(state)
                &&& env_keys_ok(*env) ==> r == Ok::<Vec<String>, ExecutionError>(args)
                &&& !env_keys_ok(*env) ==> r == Err::<Vec<String>, ExecutionError>(
                    ExecutionError::EmptyEnvKey,
                )
            },
        },
{
    match check {
        Err(f) => {
            let err = ExecutionError::from(f);
            if let ExecutionError::ValidationError { name, message } = &err {
                state.update_validation_error(name.as_str(), message.as_str());
            }
            Err(err)
        },
        Ok(()) => {
            if check_env_keys(env) {
                Ok(args)
            } else {
                Err(ExecutionError::EmptyEnvKey)
            }
        },
    }
}

} // verus!
