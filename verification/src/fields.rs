//! The fields of a descriptor and their mathematical model.

use vstd::prelude::*;

verus! {

/// What the user entered. The fields are public: a form fills them in freely,
/// and every combination of values is allowed until a descriptor is asked for.
#[derive(Debug, PartialEq, Eq)]
pub struct Generator {
    /// Path of the program that the launcher starts.
    pub executable_path: String,
    /// Display name, also the stem of the descriptor's file name.
    pub name: String,
    /// Path of the icon, if one was chosen.
    pub icon_path: Option<String>,
    /// Free text shown with the launcher; left out of the descriptor when empty.
    pub comment: String,
}

/// The model of a [`Generator`]: each text as the sequence of its characters.
pub struct Fields {
    pub executable_path: Seq<char>,
    pub name: Seq<char>,
    pub icon_path: Option<Seq<char>>,
    pub comment: Seq<char>,
}

impl Fields {
    /// The fields of a form that nobody has filled in yet.
    pub open spec fn empty() -> Fields {
        Fields {
            executable_path: Seq::empty(),
            name: Seq::empty(),
            icon_path: None,
            comment: Seq::empty(),
        }
    }
}

impl View for Generator {
    type V = Fields;

    open spec fn view(&self) -> Fields {
        Fields {
            executable_path: self.executable_path@,
            name: self.name@,
            icon_path: match self.icon_path {
                Some(path) => Some(path@),
                None => None,
            },
            comment: self.comment@,
        }
    }
}

impl Generator {
    /// A generator with every text empty and no icon.
    pub fn new() -> (generator: Generator)
        ensures
            generator@ == Fields::empty(),
    {
        Generator {
            executable_path: String::new(),
            name: String::new(),
            icon_path: None,
            comment: String::new(),
        }
    }
}

} // verus!
