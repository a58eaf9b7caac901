//! Why a descriptor could not be produced.

use vstd::prelude::*;

verus! {

/// The ways in which a generation ends without a descriptor on disk.
#[derive(Debug, PartialEq, Eq)]
pub enum GenerationError {
    /// The executable path names nothing that exists. Holds that path.
    ExecutableNotFound(String),
    /// An icon was chosen and its path names nothing that exists. Holds that path.
    IconNotFound(String),
    /// The display name is empty.
    NameEmpty,
    /// The destination could not be created for want of privilege. Holds the
    /// destination.
    PermissionDenied(String),
    /// The destination could not be created for another reason, or could not be
    /// written after it was created. Holds the destination and the cause.
    WriteFailed(String, String),
}

/// The model of a [`GenerationError`], with each text as its characters.
pub enum Failure {
    ExecutableNotFound(Seq<char>),
    IconNotFound(Seq<char>),
    NameEmpty,
    PermissionDenied(Seq<char>),
    WriteFailed(Seq<char>, Seq<char>),
}

impl View for GenerationError {
    type V = Failure;

    open spec fn view(&self) -> Failure {
        match self {
            GenerationError::ExecutableNotFound(path) => Failure::ExecutableNotFound(path@),
            GenerationError::IconNotFound(path) => Failure::IconNotFound(path@),
            GenerationError::NameEmpty => Failure::NameEmpty,
            GenerationError::PermissionDenied(path) => Failure::PermissionDenied(path@),
            GenerationError::WriteFailed(path, cause) => Failure::WriteFailed(path@, cause@),
        }
    }
}

impl Failure {
    /// The text shown to the user for this failure.
    pub open spec fn message(self) -> Seq<char> {
        match self {
            Failure::ExecutableNotFound(path) => "Executable "@ + path + " doesn't exists"@,
            Failure::IconNotFound(path) => "Icon "@ + path + " doesn't exists"@,
            Failure::NameEmpty => "Name is empty"@,
            Failure::PermissionDenied(path) => path
                + " couldn't be created due to missing privilidge -> try running with 'sudo'"@,
            Failure::WriteFailed(path, cause) => "Failed to write to "@ + path + ": "@ + cause,
        }
    }
}

impl GenerationError {
    /// The text shown to the user for this error.
    pub fn message(&self) -> (text: String)
        ensures
            text@ == self@.message(),
    {
        match self {
            GenerationError::ExecutableNotFound(path) => {
                let mut text = String::from_str("Executable ");
                text.append(path.as_str());
                text.append(" doesn't exists");
                text
            },
            GenerationError::IconNotFound(path) => {
                let mut text = String::from_str("Icon ");
                text.append(path.as_str());
                text.append(" doesn't exists");
                text
            },
            GenerationError::NameEmpty => String::from_str("Name is empty"),
            GenerationError::PermissionDenied(path) => {
                let mut text = path.clone();
                text.append(
                    " couldn't be created due to missing privilidge -> try running with 'sudo'",
                );
                text
            },
            GenerationError::WriteFailed(path, cause) => {
                let mut text = String::from_str("Failed to write to ");
                text.append(path.as_str());
                text.append(": ");
                text.append(cause.as_str());
                text
            },
        }
    }
}

} // verus!
