//! Deciding whether a descriptor may be written, and with what text.
//!
//! Three checks stand before the text, always in the same order: the
//! executable exists, the icon exists if one was chosen, the name is not
//! empty. The first that fails ends the generation; the others are then of no
//! account, and there is no text that anybody could write.

use crate::document::document;
use crate::error::{Failure, GenerationError};
use crate::fields::{Fields, Generator};
use vstd::prelude::*;

verus! {

/// The failure of the first check that does not pass, or `None` where all pass.
///
/// `executable_exists` and `icon_exists` say what was found on disk at the two
/// paths; `icon_exists` is of no account where no icon was chosen.
pub open spec fn first_failure(
    fields: Fields,
    executable_exists: bool,
    icon_exists: bool,
) -> Option<Failure> {
    if !executable_exists {
        Some(Failure::ExecutableNotFound(fields.executable_path))
    } else if fields.icon_path is Some && !icon_exists {
        Some(Failure::IconNotFound(fields.icon_path->0))
    } else if fields.name.len() == 0 {
        Some(Failure::NameEmpty)
    } else {
        None
    }
}

/// What a generation yields: the descriptor's text where every check passes,
/// and otherwise the failure of the first check that does not.
pub open spec fn generation(
    fields: Fields,
    executable_exists: bool,
    icon_exists: bool,
) -> Result<Seq<char>, Failure> {
    match first_failure(fields, executable_exists, icon_exists) {
        Some(failure) => Err(failure),
        None => Ok(document(fields)),
    }
}

impl Generator {
    /// Runs the three checks in their order and reports the first that fails.
    ///
    /// The caller looks on disk and passes what it found: `executable_exists`
    /// for `executable_path`, `icon_exists` for the icon's path. Where no icon
    /// was chosen, `icon_exists` is not read.
    pub fn validate(&self, executable_exists: bool, icon_exists: bool) -> (result: Result<
        (),
        GenerationError,
    >)
        ensures
            match result {
                Ok(()) => first_failure(self@, executable_exists, icon_exists) is None,
                Err(error) => first_failure(self@, executable_exists, icon_exists) == Some(
                    error@,
                ),
            },
    {
        if !executable_exists {
            return Err(GenerationError::ExecutableNotFound(self.executable_path.clone()));
        }
        if let Some(icon_path) = &self.icon_path {
            if !icon_exists {
                return Err(GenerationError::IconNotFound(icon_path.clone()));
            }
        }
        if self.name.as_str().is_empty() {
            return Err(GenerationError::NameEmpty);
        }
        Ok(())
    }

    /// Checks the fields and, where they pass, gives the text to write to the
    /// destination. The fields are only read.
    ///
    /// On an error there is nothing to write: the destination is to be left as
    /// it is. The text depends on the fields alone, so that writing it again
    /// over the same destination changes nothing.
    pub fn generate(&self, executable_exists: bool, icon_exists: bool) -> (result: Result<
        String,
        GenerationError,
    >)
        ensures
            match result {
                Ok(text) => generation(self@, executable_exists, icon_exists) == Ok::<
                    Seq<char>,
                    Failure,
                >(text@),
                Err(error) => generation(self@, executable_exists, icon_exists) == Err::<
                    Seq<char>,
                    Failure,
                >(error@),
            },
    {
        match self.validate(executable_exists, icon_exists) {
            Ok(()) => Ok(self.render()),
            Err(error) => Err(error),
        }
    }
}

} // verus!
