//! The text of a descriptor.
//!
//! A descriptor is a sequence of lines, each ended by one line feed: the group
//! line, two fixed entries, and then one entry for each field that has a value.
//! Values are written as they are, with nothing escaped or quoted.

use crate::fields::{Fields, Generator};
use vstd::prelude::*;

verus! {

/// The line `key=value`, with the line feed that ends it.
pub open spec fn entry_line(key: Seq<char>, value: Seq<char>) -> Seq<char> {
    (key.push('=') + value).push('\n')
}

/// The line that opens the group of entries, with its line feed.
pub open spec fn group_line() -> Seq<char> {
    "[Desktop Entry]"@.push('\n')
}

/// The three lines that every descriptor starts with.
pub open spec fn preamble() -> Seq<char> {
    group_line() + entry_line("Version"@, "1.0"@) + entry_line("Type"@, "Application"@)
}

/// The icon's entry, or nothing where no icon was chosen.
pub open spec fn icon_lines(icon_path: Option<Seq<char>>) -> Seq<char> {
    match icon_path {
        Some(path) => entry_line("Icon"@, path),
        None => Seq::empty(),
    }
}

/// The comment's entry, or nothing where the comment is empty.
pub open spec fn comment_lines(comment: Seq<char>) -> Seq<char> {
    if comment.len() > 0 {
        entry_line("Comment"@, comment)
    } else {
        Seq::empty()
    }
}

/// The whole descriptor for the given fields.
pub open spec fn document(fields: Fields) -> Seq<char> {
    preamble() + entry_line("Name"@, fields.name) + entry_line(
        "Exec"@,
        fields.executable_path,
    ) + icon_lines(fields.icon_path) + comment_lines(fields.comment)
}

/// Appends the line `key=value` to `text`.
fn push_entry(text: &mut String, key: &str, value: &str)
    ensures
        final(text)@ == old(text)@ + entry_line(key@, value@),
{
    text.append(key);
    text.append("=");
    text.append(value);
    text.append("\n");
    proof {
        reveal_strlit("=");
        reveal_strlit("\n");
        assert("="@ =~= seq!['=']);
        assert("\n"@ =~= seq!['\n']);
        assert(text@ =~= old(text)@ + entry_line(key@, value@));
    }
}

impl Generator {
    /// Writes the fields out as a descriptor. Every field set has one: whether
    /// it may be written to disk is decided elsewhere.
    pub fn render(&self) -> (text: String)
        ensures
            text@ == document(self@),
    {
        let mut text = String::from_str("[Desktop Entry]");
        text.append("\n");
        proof {
            reveal_strlit("\n");
            assert("\n"@ =~= seq!['\n']);
            assert(text@ =~= group_line());
        }
        push_entry(&mut text, "Version", "1.0");
        push_entry(&mut text, "Type", "Application");
        assert(text@ == preamble());
        push_entry(&mut text, "Name", self.name.as_str());
        push_entry(&mut text, "Exec", self.executable_path.as_str());
        match &self.icon_path {
            Some(path) => {
                push_entry(&mut text, "Icon", path.as_str());
            },
            None => {
                assert(text@ + Seq::<char>::empty() =~= text@);
            },
        }
        assert(text@ == preamble() + entry_line("Name"@, self@.name) + entry_line(
            "Exec"@,
            self@.executable_path,
        ) + icon_lines(self@.icon_path));
        if !self.comment.as_str().is_empty() {
            push_entry(&mut text, "Comment", self.comment.as_str());
        } else {
            assert(text@ + Seq::<char>::empty() =~= text@);
        }
        text
    }
}

} // verus!
