//! What follows from the attempt to write a descriptor.
//!
//! The caller creates the destination, truncating what was there, and writes
//! the text in one pass. It reports here what became of that, and learns which
//! result the generation has.

use crate::error::{Failure, GenerationError};
use vstd::prelude::*;

verus! {

/// What became of writing the text to the destination.
#[derive(Debug, PartialEq, Eq)]
pub enum WriteOutcome {
    /// The destination was created and holds the text.
    Written,
    /// The destination could not be created: permission was denied.
    CreateDenied,
    /// The destination could not be created, for the cause given.
    CreateFailed(String),
    /// The destination was created, but writing to it failed, for the cause
    /// given.
    WriteFailed(String),
}

/// The result of a generation whose write to `destination` ended in `outcome`.
///
/// A denied creation is told apart, because the user can mend it by running
/// with more privilege. Every other failure keeps its cause for display.
pub fn conclude(destination: &str, outcome: WriteOutcome) -> (result: Result<(), GenerationError>)
    ensures
        match outcome {
            WriteOutcome::Written => result is Ok,
            WriteOutcome::CreateDenied => result is Err && result->Err_0@
                == Failure::PermissionDenied(destination@),
            WriteOutcome::CreateFailed(cause) => result is Err && result->Err_0@
                == Failure::WriteFailed(destination@, cause@),
            WriteOutcome::WriteFailed(cause) => result is Err && result->Err_0@
                == Failure::WriteFailed(destination@, cause@),
        },
{
    match outcome {
        WriteOutcome::Written => Ok(()),
        WriteOutcome::CreateDenied => Err(
            GenerationError::PermissionDenied(String::from_str(destination)),
        ),
        WriteOutcome::CreateFailed(cause) => Err(
            GenerationError::WriteFailed(String::from_str(destination), cause),
        ),
        WriteOutcome::WriteFailed(cause) => Err(
            GenerationError::WriteFailed(String::from_str(destination), cause),
        ),
    }
}

} // verus!
