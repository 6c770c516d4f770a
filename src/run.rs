//! What a run of Cargo comes to: its exit status weighed against what its
//! message stream decided.

use crate::error::{outcome_view, result_view, Failure, TestBinaryError};
use vstd::prelude::*;

verus! {

/// The result of a build, from whether Cargo exited with success, the outcome
/// read from its message stream, and its free-text error output.
///
/// On success a path, or a binary that was not built, stands; a success
/// with a failed compilation, or with no outcome at all, contradicts itself
/// and is an internal-consistency error. On failure only a failed compilation read from
/// the stream stands: anything else gives way to the error output, which
/// then holds the only account of what went wrong.
pub open spec fn reconciled(
    exit_success: bool,
    outcome: Option<Result<Seq<char>, Failure>>,
    stderr: Seq<char>,
) -> Result<Seq<char>, Failure> {
    if exit_success {
        match outcome {
            Some(Err(Failure::BuildError(_))) => Err(Failure::InconsistentOutcome),
            Some(r) => r,
            None => Err(Failure::InconsistentOutcome),
        }
    } else {
        match outcome {
            Some(Err(Failure::BuildError(d))) => Err(Failure::BuildError(d)),
            _ => Err(Failure::CargoFailure(stderr)),
        }
    }
}

/// Weighs Cargo's exit status against the outcome read from its message
/// stream, with its free-text error output `stderr` at hand.
pub fn reconcile(
    exit_success: bool,
    outcome: Option<Result<String, TestBinaryError>>,
    stderr: String,
) -> (r: Result<String, TestBinaryError>)
    ensures
        result_view(r) == reconciled(exit_success, outcome_view(outcome), stderr@),
{
    if exit_success {
        match outcome {
            Some(Err(TestBinaryError::BuildError(_))) => Err(TestBinaryError::InconsistentOutcome),
            Some(r) => r,
            None => Err(TestBinaryError::InconsistentOutcome),
        }
    } else {
        match outcome {
            Some(Err(TestBinaryError::BuildError(d))) => Err(TestBinaryError::BuildError(d)),
            _ => Err(TestBinaryError::CargoFailure(stderr)),
        }
    }
}

/// The message for an environment variable `key` that Cargo sets and that is
/// missing.
pub open spec fn unset_message(key: Seq<char>) -> Seq<char> {
    "The environment variable  '"@ + key + "' is not set"@
}

/// The value of the environment variable `key`, which Cargo sets for the
/// processes it runs, where `value` holds it; without it this is not a run
/// under Cargo.
pub fn require_cargo_env(key: &str, value: Option<String>) -> (r: Result<String, TestBinaryError>)
    ensures
        match value {
            Some(v) => r matches Ok(s) && s@ == v@,
            None => r matches Err(e) && e@ == Failure::NonCargoRun(unset_message(key@)),
        },
{
    match value {
        Some(v) => Ok(v),
        None => {
            let mut msg = String::from_str("The environment variable  '");
            msg.append(key);
            msg.append("' is not set");
            Err(TestBinaryError::NonCargoRun(msg))
        },
    }
}

} // verus!
