//! What holds of every generation, and of every descriptor that is read back.
//!
//! The first part is about the checks: their order, and that the text
//! depends on the fields alone. The rest is about reading a descriptor back.
//! Values are written as they are, so a value with a line feed in it spreads
//! over several lines of the descriptor, and a line of it may look like an
//! entry of its own. The laws say exactly when that is in the way.

use crate::document::{comment_lines, document, entry_line, icon_lines, preamble};
use crate::error::Failure;
use crate::fields::Fields;
use crate::generate::generation;
use crate::reader::{
    carried_value, carries_entry, entry_value, first_line, has_entry, is_single_line,
    lemma_carried_value_finds_entries, lemma_entry_value_finds_entries,
    lemma_entry_value_is_single_line, lemma_entry_value_of_joined, lemma_line_len,
    lemma_line_len_at, line_len,
};
use vstd::prelude::*;

verus! {

/// The checks come in one order, and the first that fails decides: a missing
/// executable before a missing icon, a missing icon before an empty name. Only
/// where none fails is there a text.
pub proof fn lemma_first_failing_check_decides(
    fields: Fields,
    executable_exists: bool,
    icon_exists: bool,
)
    ensures
        !executable_exists ==> generation(fields, executable_exists, icon_exists) == Err::<
            Seq<char>,
            Failure,
        >(Failure::ExecutableNotFound(fields.executable_path)),
        executable_exists && fields.icon_path is Some && !icon_exists ==> generation(
            fields,
            executable_exists,
            icon_exists,
        ) == Err::<Seq<char>, Failure>(Failure::IconNotFound(fields.icon_path->0)),
        executable_exists && (fields.icon_path is Some ==> icon_exists) && fields.name.len() == 0
            ==> generation(fields, executable_exists, icon_exists) == Err::<Seq<char>, Failure>(
            Failure::NameEmpty,
        ),
        executable_exists && (fields.icon_path is Some ==> icon_exists) && fields.name.len() > 0
            ==> generation(fields, executable_exists, icon_exists) == Ok::<Seq<char>, Failure>(
            document(fields),
        ),
{
}

/// Two generations from the same fields that both pass the checks give the
/// same text, whatever else differed between them: written over the same
/// destination, the second leaves what the first wrote.
pub proof fn lemma_same_fields_same_text(
    fields: Fields,
    executable_exists: bool,
    icon_exists: bool,
    executable_exists_again: bool,
    icon_exists_again: bool,
)
    requires
        generation(fields, executable_exists, icon_exists) is Ok,
        generation(fields, executable_exists_again, icon_exists_again) is Ok,
    ensures
        generation(fields, executable_exists, icon_exists) == generation(
            fields,
            executable_exists_again,
            icon_exists_again,
        ),
{
}

/// The first of two readings that found something.
pub open spec fn first_found(first: Option<Seq<char>>, second: Option<Seq<char>>) -> Option<
    Seq<char>,
> {
    match first {
        Some(value) => Some(value),
        None => second,
    }
}

/// The words of the format: each is one line, and no two begin alike.
proof fn lemma_words()
    ensures
        is_single_line("[Desktop Entry]"@) && "[Desktop Entry]"@.len() > 0 && "[Desktop Entry]"@[0]
            == '[',
        is_single_line("Version"@) && "Version"@.len() > 0 && "Version"@[0] == 'V',
        is_single_line("Type"@) && "Type"@.len() > 0 && "Type"@[0] == 'T',
        is_single_line("Name"@) && "Name"@.len() > 0 && "Name"@[0] == 'N',
        is_single_line("Exec"@) && "Exec"@.len() > 0 && "Exec"@[0] == 'E',
        is_single_line("Icon"@) && "Icon"@.len() > 0 && "Icon"@[0] == 'I',
        is_single_line("Comment"@) && "Comment"@.len() > 0 && "Comment"@[0] == 'C',
        is_single_line("1.0"@),
        is_single_line("Application"@),
{
    reveal_strlit("[Desktop Entry]");
    reveal_strlit("Version");
    reveal_strlit("Type");
    reveal_strlit("Name");
    reveal_strlit("Exec");
    reveal_strlit("Icon");
    reveal_strlit("Comment");
    reveal_strlit("1.0");
    reveal_strlit("Application");
}

/// The first line of `key=value` runs to the end of the first line of `value`.
proof fn lemma_entry_first_line(key: Seq<char>, value: Seq<char>)
    requires
        is_single_line(key),
    ensures
        line_len(key.push('=') + value) == key.len() + 1 + line_len(value),
        first_line(key.push('=') + value) == key.push('=') + first_line(value),
{
    let text = key.push('=') + value;
    let end = key.len() + 1 + line_len(value);
    lemma_line_len(value);
    let line = text.take(end as int);
    assert(line =~= key.push('=') + first_line(value));
    assert forall|i: int| 0 <= i < line.len() implies line[i] != '\n' by {
        if i < key.len() {
            assert(line[i] == key[i]);
        } else if i == key.len() {
        } else {
            assert(line[i] == first_line(value)[i - key.len() - 1]);
        }
    }
    if end < text.len() {
        assert(text[end as int] == value[line_len(value) as int]);
    }
    lemma_line_len_at(text, end as int);
}

/// Read for its own key, `key=value` gives the first line of `value`.
proof fn lemma_entry_of_own_key(key: Seq<char>, value: Seq<char>)
    requires
        is_single_line(key),
    ensures
        entry_value(key.push('=') + value, key) == Some(first_line(value)),
{
    let text = key.push('=') + value;
    lemma_entry_first_line(key, value);
    let line = first_line(text);
    assert(key.push('=') =~= line.subrange(0, (key.len() + 1) as int));
    assert(line.skip((key.len() + 1) as int) =~= first_line(value));
}

/// Read for a key that begins otherwise, `other=value` gives what `value`
/// carries after its first line feed.
proof fn lemma_entry_of_other_key(other: Seq<char>, value: Seq<char>, key: Seq<char>)
    requires
        is_single_line(other),
        other.len() > 0,
        key.len() > 0,
        other[0] != key[0],
    ensures
        entry_value(other.push('=') + value, key) == carried_value(value, key),
{
    let text = other.push('=') + value;
    lemma_entry_first_line(other, value);
    lemma_line_len(value);
    let line = first_line(text);
    let prefix = key.push('=');
    if prefix.is_prefix_of(line) {
        assert(line.subrange(0, prefix.len() as int)[0] == prefix[0]);
        assert(line[0] == other[0]);
        assert(prefix[0] == key[0]);
    }
    if line_len(text) < text.len() {
        assert(text.skip((line_len(text) + 1) as int) =~= value.skip((line_len(value) + 1) as int));
    }
}

/// Reading from an entry's line and what follows it, for the entry's own key.
proof fn lemma_own_line_then(key: Seq<char>, value: Seq<char>, rest: Seq<char>)
    requires
        is_single_line(key),
    ensures
        entry_value(entry_line(key, value) + rest, key) == Some(first_line(value)),
{
    lemma_entry_value_of_joined(key.push('=') + value, rest, key);
    lemma_entry_of_own_key(key, value);
}

/// Reading from an entry's line and what follows it, for a key that begins
/// otherwise.
proof fn lemma_other_line_then(other: Seq<char>, value: Seq<char>, rest: Seq<char>, key: Seq<char>)
    requires
        is_single_line(other),
        other.len() > 0,
        key.len() > 0,
        other[0] != key[0],
    ensures
        entry_value(entry_line(other, value) + rest, key) == first_found(
            carried_value(value, key),
            entry_value(rest, key),
        ),
{
    lemma_entry_value_of_joined(other.push('=') + value, rest, key);
    lemma_entry_of_other_key(other, value, key);
}

/// The three opening lines hold no entry for a key of the fields.
proof fn lemma_preamble_then(rest: Seq<char>, key: Seq<char>)
    requires
        key.len() > 0,
        key[0] != '[',
        key[0] != 'V',
        key[0] != 'T',
    ensures
        entry_value(preamble() + rest, key) == entry_value(rest, key),
{
    lemma_words();
    let group = "[Desktop Entry]"@;
    let after_version = entry_line("Type"@, "Application"@) + rest;
    let after_group = entry_line("Version"@, "1.0"@) + after_version;
    assert(preamble() + rest =~= group.push('\n') + after_group);
    lemma_entry_value_of_joined(group, after_group, key);
    assert(entry_value(group, key) is None) by {
        lemma_line_len(group);
        let prefix = key.push('=');
        if prefix.is_prefix_of(first_line(group)) {
            assert(first_line(group).subrange(0, prefix.len() as int)[0] == prefix[0]);
        }
    }
    lemma_other_line_then("Version"@, "1.0"@, after_version, key);
    lemma_line_len("1.0"@);
    lemma_other_line_then("Type"@, "Application"@, rest, key);
    lemma_line_len("Application"@);
}

/// An empty text holds no entry.
proof fn lemma_empty_holds_no_entry(key: Seq<char>)
    ensures
        entry_value(Seq::<char>::empty(), key) is None,
{
    let empty = Seq::<char>::empty();
    assert(line_len(empty) == 0);
    assert(first_line(empty).len() == 0);
}

/// What the lines of the comment give for a key that does not begin like
/// `Comment`.
proof fn lemma_comment_lines_for_other(comment: Seq<char>, key: Seq<char>)
    requires
        key.len() > 0,
        key[0] != 'C',
    ensures
        entry_value(comment_lines(comment), key) == carried_value(comment, key),
{
    lemma_words();
    lemma_empty_holds_no_entry(key);
    if comment.len() > 0 {
        let empty = Seq::<char>::empty();
        assert(comment_lines(comment) =~= entry_line("Comment"@, comment) + empty);
        lemma_other_line_then("Comment"@, comment, empty, key);
    } else {
        assert(line_len(comment) == 0);
    }
}

/// The descriptor, taken apart after its opening lines.
proof fn lemma_document_parts(fields: Fields)
    ensures
        document(fields) == preamble() + (entry_line("Name"@, fields.name) + (entry_line(
            "Exec"@,
            fields.executable_path,
        ) + (icon_lines(fields.icon_path) + comment_lines(fields.comment)))),
{
    assert(document(fields) =~= preamble() + (entry_line("Name"@, fields.name) + (entry_line(
        "Exec"@,
        fields.executable_path,
    ) + (icon_lines(fields.icon_path) + comment_lines(fields.comment)))));
}

/// What a descriptor gives for the key `Name`: the first line of the name.
pub proof fn lemma_read_name(fields: Fields)
    ensures
        entry_value(document(fields), "Name"@) == Some(first_line(fields.name)),
{
    lemma_words();
    lemma_document_parts(fields);
    let after_name = entry_line("Exec"@, fields.executable_path) + (icon_lines(fields.icon_path)
        + comment_lines(fields.comment));
    lemma_preamble_then(entry_line("Name"@, fields.name) + after_name, "Name"@);
    lemma_own_line_then("Name"@, fields.name, after_name);
}

/// What a descriptor gives for the key `Exec`: the first line of the
/// executable's path, unless the name carries an entry of its own.
pub proof fn lemma_read_exec(fields: Fields)
    ensures
        entry_value(document(fields), "Exec"@) == first_found(
            carried_value(fields.name, "Exec"@),
            Some(first_line(fields.executable_path)),
        ),
{
    lemma_words();
    lemma_document_parts(fields);
    let after_exec = icon_lines(fields.icon_path) + comment_lines(fields.comment);
    let after_name = entry_line("Exec"@, fields.executable_path) + after_exec;
    lemma_preamble_then(entry_line("Name"@, fields.name) + after_name, "Exec"@);
    lemma_other_line_then("Name"@, fields.name, after_name, "Exec"@);
    lemma_own_line_then("Exec"@, fields.executable_path, after_exec);
}

/// What the icon's line, or its absence, gives for the key `Icon`.
pub open spec fn icon_reading(fields: Fields) -> Option<Seq<char>> {
    match fields.icon_path {
        Some(path) => Some(first_line(path)),
        None => carried_value(fields.comment, "Icon"@),
    }
}

/// What a descriptor gives for the key `Icon`: the first line of the icon's
/// path where there is one, unless a value before it carries an entry of its
/// own; without an icon, only what a value carries.
pub proof fn lemma_read_icon(fields: Fields)
    ensures
        entry_value(document(fields), "Icon"@) == first_found(
            carried_value(fields.name, "Icon"@),
            first_found(carried_value(fields.executable_path, "Icon"@), icon_reading(fields)),
        ),
{
    lemma_words();
    lemma_document_parts(fields);
    let after_icon = comment_lines(fields.comment);
    let after_exec = icon_lines(fields.icon_path) + after_icon;
    let after_name = entry_line("Exec"@, fields.executable_path) + after_exec;
    lemma_preamble_then(entry_line("Name"@, fields.name) + after_name, "Icon"@);
    lemma_other_line_then("Name"@, fields.name, after_name, "Icon"@);
    lemma_other_line_then("Exec"@, fields.executable_path, after_exec, "Icon"@);
    match fields.icon_path {
        Some(path) => {
            lemma_own_line_then("Icon"@, path, after_icon);
        },
        None => {
            assert(after_exec =~= after_icon);
            lemma_comment_lines_for_other(fields.comment, "Icon"@);
        },
    }
}

/// What the lines from the icon on give for the key `Comment`.
pub open spec fn comment_reading(fields: Fields) -> Option<Seq<char>> {
    first_found(
        match fields.icon_path {
            Some(path) => carried_value(path, "Comment"@),
            None => None,
        },
        if fields.comment.len() > 0 {
            Some(first_line(fields.comment))
        } else {
            None
        },
    )
}

/// What a descriptor gives for the key `Comment`: the first line of the
/// comment where it is not empty, unless a value before it carries an entry of
/// its own; with an empty comment, only what a value carries.
pub proof fn lemma_read_comment(fields: Fields)
    ensures
        entry_value(document(fields), "Comment"@) == first_found(
            carried_value(fields.name, "Comment"@),
            first_found(carried_value(fields.executable_path, "Comment"@), comment_reading(fields)),
        ),
{
    lemma_words();
    lemma_document_parts(fields);
    let empty = Seq::<char>::empty();
    let after_icon = comment_lines(fields.comment);
    let after_exec = icon_lines(fields.icon_path) + after_icon;
    let after_name = entry_line("Exec"@, fields.executable_path) + after_exec;
    lemma_preamble_then(entry_line("Name"@, fields.name) + after_name, "Comment"@);
    lemma_other_line_then("Name"@, fields.name, after_name, "Comment"@);
    lemma_other_line_then("Exec"@, fields.executable_path, after_exec, "Comment"@);
    match fields.icon_path {
        Some(path) => {
            lemma_other_line_then("Icon"@, path, after_icon, "Comment"@);
        },
        None => {
            assert(after_exec =~= after_icon);
        },
    }
    if fields.comment.len() > 0 {
        assert(after_icon =~= entry_line("Comment"@, fields.comment) + empty);
        lemma_own_line_then("Comment"@, fields.comment, empty);
    } else {
        lemma_empty_holds_no_entry("Comment"@);
    }
}

/// Whether every value that `fields` puts into a descriptor is one line.
pub open spec fn values_are_single_lines(fields: Fields) -> bool {
    &&& is_single_line(fields.name)
    &&& is_single_line(fields.executable_path)
    &&& fields.icon_path matches Some(path) ==> is_single_line(path)
    &&& is_single_line(fields.comment)
}

/// Whether the descriptor of `fields` gives back each value that was put into
/// it: the name, the executable, the icon where there is one, and the comment
/// where it is not empty.
pub open spec fn reads_back(fields: Fields) -> bool {
    &&& entry_value(document(fields), "Name"@) == Some(fields.name)
    &&& entry_value(document(fields), "Exec"@) == Some(fields.executable_path)
    &&& fields.icon_path matches Some(path) ==> entry_value(document(fields), "Icon"@) == Some(
        path,
    )
    &&& fields.comment.len() > 0 ==> entry_value(document(fields), "Comment"@) == Some(
        fields.comment,
    )
}

/// Whether no value of `fields` has a line after its first that begins with
/// `key=`.
pub open spec fn nothing_carries(fields: Fields, key: Seq<char>) -> bool {
    &&& !carries_entry(fields.name, key)
    &&& !carries_entry(fields.executable_path, key)
    &&& fields.icon_path matches Some(path) ==> !carries_entry(path, key)
    &&& !carries_entry(fields.comment, key)
}

/// A value of one line carries no entry.
pub proof fn lemma_single_line_carries_nothing(value: Seq<char>, key: Seq<char>)
    requires
        is_single_line(value),
    ensures
        !carries_entry(value, key),
        carried_value(value, key) is None,
{
    lemma_line_len(value);
    lemma_carried_value_finds_entries(value, key);
}

/// Round trip: a descriptor whose values are single lines gives back, word
/// for word, each value that was put into it.
pub proof fn lemma_round_trip(fields: Fields)
    requires
        values_are_single_lines(fields),
    ensures
        reads_back(fields),
{
    lemma_read_name(fields);
    lemma_read_exec(fields);
    lemma_read_icon(fields);
    lemma_read_comment(fields);
    lemma_line_len(fields.name);
    lemma_line_len(fields.executable_path);
    lemma_line_len(fields.comment);
    assert(first_line(fields.name) =~= fields.name);
    assert(first_line(fields.executable_path) =~= fields.executable_path);
    assert(first_line(fields.comment) =~= fields.comment);
    if let Some(path) = fields.icon_path {
        lemma_line_len(path);
        assert(first_line(path) =~= path);
    }
}

/// A line feed in a value breaks the round trip: values are written as they
/// are, and what is read back never holds a line feed.
pub proof fn lemma_line_feed_breaks_round_trip(fields: Fields)
    requires
        !values_are_single_lines(fields),
    ensures
        !reads_back(fields),
{
    lemma_entry_value_is_single_line(document(fields), "Name"@);
    lemma_entry_value_is_single_line(document(fields), "Exec"@);
    lemma_entry_value_is_single_line(document(fields), "Icon"@);
    lemma_entry_value_is_single_line(document(fields), "Comment"@);
}

/// What no value carries, reading does not find among what the values carry.
proof fn lemma_nothing_carried(fields: Fields, key: Seq<char>)
    ensures
        nothing_carries(fields, key) <==> {
            &&& carried_value(fields.name, key) is None
            &&& carried_value(fields.executable_path, key) is None
            &&& fields.icon_path matches Some(path) ==> carried_value(path, key) is None
            &&& carried_value(fields.comment, key) is None
        },
{
    lemma_carried_value_finds_entries(fields.name, key);
    lemma_carried_value_finds_entries(fields.executable_path, key);
    lemma_carried_value_finds_entries(fields.comment, key);
    if let Some(path) = fields.icon_path {
        lemma_carried_value_finds_entries(path, key);
    }
}

/// Without an icon no line of the descriptor begins with `Icon=`, as long as
/// no value carries such a line after a line feed.
pub proof fn lemma_no_icon_no_entry(fields: Fields)
    requires
        fields.icon_path is None,
        nothing_carries(fields, "Icon"@),
    ensures
        !has_entry(document(fields), "Icon"@),
{
    lemma_read_icon(fields);
    lemma_nothing_carried(fields, "Icon"@);
    lemma_entry_value_finds_entries(document(fields), "Icon"@);
}

/// Without an icon, a value that carries a line beginning with `Icon=` puts
/// that line into the descriptor.
pub proof fn lemma_carried_icon_shows(fields: Fields)
    requires
        fields.icon_path is None,
        !nothing_carries(fields, "Icon"@),
    ensures
        has_entry(document(fields), "Icon"@),
{
    lemma_read_icon(fields);
    lemma_nothing_carried(fields, "Icon"@);
    lemma_entry_value_finds_entries(document(fields), "Icon"@);
}

/// With an empty comment no line of the descriptor begins with `Comment=`, as
/// long as no value carries such a line after a line feed.
pub proof fn lemma_no_comment_no_entry(fields: Fields)
    requires
        fields.comment.len() == 0,
        nothing_carries(fields, "Comment"@),
    ensures
        !has_entry(document(fields), "Comment"@),
{
    lemma_read_comment(fields);
    lemma_nothing_carried(fields, "Comment"@);
    lemma_entry_value_finds_entries(document(fields), "Comment"@);
}

/// With an empty comment, a value that carries a line beginning with
/// `Comment=` puts that line into the descriptor.
pub proof fn lemma_carried_comment_shows(fields: Fields)
    requires
        fields.comment.len() == 0,
        !nothing_carries(fields, "Comment"@),
    ensures
        has_entry(document(fields), "Comment"@),
{
    lemma_read_comment(fields);
    lemma_nothing_carried(fields, "Comment"@);
    lemma_entry_value_finds_entries(document(fields), "Comment"@);
    assert(line_len(fields.comment) == 0);
}

} // verus!
