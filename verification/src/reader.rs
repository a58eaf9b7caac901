//! Reading an entry back from the text of a descriptor.
//!
//! The text is taken line by line, a line ending at a line feed or at the end
//! of the text. The value of a key is what follows `key=` on the first line
//! that begins with it.

use vstd::prelude::*;

verus! {

/// Whether `text` holds no line feed.
pub open spec fn is_single_line(text: Seq<char>) -> bool {
    forall|i: int| 0 <= i < text.len() ==> text[i] != '\n'
}

/// The number of characters before the first line feed of `text`; its whole
/// length where it has none.
pub open spec fn line_len(text: Seq<char>) -> nat
    decreases text.len(),
{
    if text.len() == 0 || text[0] == '\n' {
        0
    } else {
        1 + line_len(text.skip(1))
    }
}

/// The first line of `text`, without the line feed that ends it.
pub open spec fn first_line(text: Seq<char>) -> Seq<char> {
    text.take(line_len(text) as int)
}

/// The value of the first entry for `key` in `text`: what follows `key=` on
/// the first line that begins with it. `None` where no line begins with it.
pub open spec fn entry_value(text: Seq<char>, key: Seq<char>) -> Option<Seq<char>>
    decreases text.len(),
{
    if key.push('=').is_prefix_of(first_line(text)) {
        Some(first_line(text).skip((key.len() + 1) as int))
    } else if line_len(text) >= text.len() {
        None
    } else {
        entry_value(text.skip((line_len(text) + 1) as int), key)
    }
}

/// The value of the first entry for `key` that `value` holds after its first
/// line feed. A value written into a descriptor as it is brings such an entry
/// along with it.
pub open spec fn carried_value(value: Seq<char>, key: Seq<char>) -> Option<Seq<char>> {
    if line_len(value) < value.len() {
        entry_value(value.skip((line_len(value) + 1) as int), key)
    } else {
        None
    }
}

/// Whether a line of `text` starts at `position`: at the start of the text
/// or right after a line feed.
pub open spec fn is_line_start(text: Seq<char>, position: int) -> bool {
    0 <= position <= text.len() && (position == 0 || text[position - 1] == '\n')
}

/// Whether the line of `text` that starts at `position` begins with `key=`.
pub open spec fn is_entry_at(text: Seq<char>, key: Seq<char>, position: int) -> bool {
    is_line_start(text, position) && key.push('=').is_prefix_of(first_line(text.skip(position)))
}

/// Whether some line of `text` begins with `key=`.
pub open spec fn has_entry(text: Seq<char>, key: Seq<char>) -> bool {
    exists|position: int| is_entry_at(text, key, position)
}

/// Whether some line of `value` other than its first begins with `key=`.
pub open spec fn carries_entry(value: Seq<char>, key: Seq<char>) -> bool {
    exists|position: int| 0 < position && is_entry_at(value, key, position)
}

/// The first line ends at the first line feed, or at the end of the text.
pub proof fn lemma_line_len(text: Seq<char>)
    ensures
        line_len(text) <= text.len(),
        is_single_line(first_line(text)),
        line_len(text) < text.len() ==> text[line_len(text) as int] == '\n',
        is_single_line(text) <==> line_len(text) == text.len(),
    decreases text.len(),
{
    if text.len() == 0 || text[0] == '\n' {
    } else {
        let rest = text.skip(1);
        lemma_line_len(rest);
        assert forall|i: int| 0 <= i < first_line(text).len() implies first_line(text)[i]
            != '\n' by {
            if i > 0 {
                assert(first_line(text)[i] == first_line(rest)[i - 1]);
            }
        }
        if is_single_line(text) {
            assert forall|i: int| 0 <= i < rest.len() implies rest[i] != '\n' by {
                assert(rest[i] == text[i + 1]);
            }
        }
        if line_len(text) == text.len() {
            assert forall|i: int| 0 <= i < text.len() implies text[i] != '\n' by {
                if i > 0 {
                    assert(text[i] == rest[i - 1]);
                }
            }
        }
    }
}

/// A position is the end of the first line if no line feed stands before it
/// and it holds a line feed or is the end of the text.
pub proof fn lemma_line_len_at(text: Seq<char>, end: int)
    requires
        0 <= end <= text.len(),
        is_single_line(text.take(end)),
        end == text.len() || text[end] == '\n',
    ensures
        line_len(text) == end,
    decreases end,
{
    if end == 0 {
    } else {
        assert(text.take(end)[0] == text[0]);
        let rest = text.skip(1);
        let before = rest.take(end - 1);
        assert forall|i: int| 0 <= i < before.len() implies before[i] != '\n' by {
            assert(before[i] == text.take(end)[i + 1]);
        }
        lemma_line_len_at(rest, end - 1);
    }
}

/// A value that was read back holds no line feed.
pub proof fn lemma_entry_value_is_single_line(text: Seq<char>, key: Seq<char>)
    ensures
        entry_value(text, key) matches Some(value) ==> is_single_line(value),
    decreases text.len(),
{
    lemma_line_len(text);
    if key.push('=').is_prefix_of(first_line(text)) {
        let line = first_line(text);
        let value = line.skip((key.len() + 1) as int);
        assert forall|i: int| 0 <= i < value.len() implies value[i] != '\n' by {
            assert(value[i] == line[i + key.len() + 1]);
        }
    } else if line_len(text) >= text.len() {
    } else {
        lemma_entry_value_is_single_line(text.skip((line_len(text) + 1) as int), key);
    }
}

/// Reading from two texts in a row, with a line feed between them, finds the
/// entry of the first text, and that of the second where the first has none.
pub proof fn lemma_entry_value_of_joined(head: Seq<char>, rest: Seq<char>, key: Seq<char>)
    ensures
        entry_value(head.push('\n') + rest, key) == match entry_value(head, key) {
            Some(value) => Some(value),
            None => entry_value(rest, key),
        },
    decreases head.len(),
{
    let text = head.push('\n') + rest;
    let end = line_len(head) as int;
    lemma_line_len(head);
    assert(text.take(end) =~= first_line(head));
    lemma_line_len_at(text, end);
    assert(first_line(text) == first_line(head));
    if key.push('=').is_prefix_of(first_line(text)) {
    } else if end == head.len() {
        assert(text.skip(end + 1) =~= rest);
    } else {
        let head_rest = head.skip(end + 1);
        assert(text.skip(end + 1) =~= head_rest.push('\n') + rest);
        lemma_entry_value_of_joined(head_rest, rest, key);
    }
}

/// The lines of `text` after its first are the lines of what follows its
/// first line feed.
proof fn lemma_entry_after_first_line(text: Seq<char>, key: Seq<char>, position: int)
    requires
        line_len(text) < text.len(),
    ensures
        0 < position && is_entry_at(text, key, position) <==> is_entry_at(
            text.skip((line_len(text) + 1) as int),
            key,
            position - line_len(text) - 1,
        ),
{
    lemma_line_len(text);
    let end = line_len(text) as int;
    let rest = text.skip(end + 1);
    let moved = position - end - 1;
    if 0 < position && is_line_start(text, position) {
        if position <= end {
            assert(first_line(text)[position - 1] == text[position - 1]);
        }
        assert(rest.skip(moved) =~= text.skip(position));
    }
    if is_line_start(rest, moved) {
        if moved > 0 {
            assert(rest[moved - 1] == text[position - 1]);
        }
        assert(rest.skip(moved) =~= text.skip(position));
    }
}

/// Reading finds an entry exactly where some line begins with `key=`.
pub proof fn lemma_entry_value_finds_entries(text: Seq<char>, key: Seq<char>)
    ensures
        entry_value(text, key) is Some <==> has_entry(text, key),
    decreases text.len(),
{
    lemma_line_len(text);
    assert(text.skip(0) =~= text);
    if key.push('=').is_prefix_of(first_line(text)) {
        assert(is_entry_at(text, key, 0));
    } else if line_len(text) >= text.len() {
        assert forall|position: int| !is_entry_at(text, key, position) by {
            if 0 < position && is_line_start(text, position) {
                assert(text[position - 1] == '\n');
            }
        }
    } else {
        let end = line_len(text) as int;
        let rest = text.skip(end + 1);
        lemma_entry_value_finds_entries(rest, key);
        if has_entry(rest, key) {
            let moved = choose|moved: int| is_entry_at(rest, key, moved);
            lemma_entry_after_first_line(text, key, moved + end + 1);
            assert(is_entry_at(text, key, moved + end + 1));
        }
        if has_entry(text, key) {
            let position = choose|position: int| is_entry_at(text, key, position);
            lemma_entry_after_first_line(text, key, position);
            assert(is_entry_at(rest, key, position - end - 1));
        }
    }
}

/// A value carries a value for `key` exactly where one of its lines after the
/// first begins with `key=`.
pub proof fn lemma_carried_value_finds_entries(value: Seq<char>, key: Seq<char>)
    ensures
        carried_value(value, key) is Some <==> carries_entry(value, key),
{
    lemma_line_len(value);
    if line_len(value) < value.len() {
        let end = line_len(value) as int;
        let rest = value.skip(end + 1);
        lemma_entry_value_finds_entries(rest, key);
        if has_entry(rest, key) {
            let moved = choose|moved: int| is_entry_at(rest, key, moved);
            lemma_entry_after_first_line(value, key, moved + end + 1);
            assert(0 < moved + end + 1 && is_entry_at(value, key, moved + end + 1));
        }
        if carries_entry(value, key) {
            let position = choose|position: int| 0 < position && is_entry_at(value, key, position);
            lemma_entry_after_first_line(value, key, position);
            assert(is_entry_at(rest, key, position - end - 1));
        }
    } else {
        assert forall|position: int| !(0 < position && is_entry_at(value, key, position)) by {
            if 0 < position && is_line_start(value, position) {
                assert(value[position - 1] == '\n');
            }
        }
    }
}

/// The characters of `text`, one by one.
fn characters(text: &str) -> (chars: Vec<char>)
    ensures
        chars@ == text@,
{
    let mut chars: Vec<char> = Vec::new();
    for c in it: text.chars()
        invariant
            chars@ == it.seq().take(it.index()),
            it.seq() == text@,
    {
        chars.push(c);
    }
    chars
}

/// The end of the line that starts at `start`: the position of the next line
/// feed, or the length of `chars` where none follows.
fn line_end(chars: &Vec<char>, start: usize) -> (end: usize)
    requires
        start <= chars.len(),
    ensures
        start <= end <= chars.len(),
        end - start == line_len(chars@.skip(start as int)),
{
    let mut end: usize = start;
    while end < chars.len() && chars[end] != '\n'
        invariant
            start <= end <= chars.len(),
            forall|i: int| start <= i < end ==> chars@[i] != '\n',
        decreases chars.len() - end,
    {
        end = end + 1;
    }
    proof {
        let rest = chars@.skip(start as int);
        let line = rest.take(end - start);
        assert forall|i: int| 0 <= i < line.len() implies line[i] != '\n' by {
            assert(line[i] == chars@[start + i]);
        }
        lemma_line_len_at(rest, end - start);
    }
    end
}

/// Whether the line from `start` to `end` begins with `key=`.
fn begins_entry(chars: &Vec<char>, start: usize, end: usize, key: &Vec<char>) -> (begins: bool)
    requires
        start <= end <= chars.len(),
    ensures
        begins == key@.push('=').is_prefix_of(chars@.subrange(start as int, end as int)),
{
    let ghost line = chars@.subrange(start as int, end as int);
    let ghost prefix = key@.push('=');
    if end - start <= key.len() {
        return false;
    }
    let mut i: usize = 0;
    while i < key.len()
        invariant
            i <= key.len() < end - start,
            end <= chars.len(),
            line == chars@.subrange(start as int, end as int),
            prefix == key@.push('='),
            forall|j: int| 0 <= j < i ==> line[j] == prefix[j],
        decreases key.len() - i,
    {
        if chars[start + i] != key[i] {
            proof {
                assert(line[i as int] != prefix[i as int]);
                assert(prefix.is_prefix_of(line) ==> line.subrange(0, prefix.len() as int)[i as int]
                    == prefix[i as int]);
            }
            return false;
        }
        i = i + 1;
    }
    let begins = chars[start + i] == '=';
    proof {
        if begins {
            assert(prefix =~= line.subrange(0, prefix.len() as int));
        } else {
            assert(line[i as int] != prefix[i as int]);
            assert(prefix.is_prefix_of(line) ==> line.subrange(0, prefix.len() as int)[i as int]
                == prefix[i as int]);
        }
    }
    begins
}

/// Reads the value of the first entry for `key` in `text`: what follows
/// `key=` on the first line that begins with it. `None` where no line does.
pub fn read_entry(text: &str, key: &str) -> (value: Option<String>)
    ensures
        match value {
            Some(found) => entry_value(text@, key@) == Some(found@),
            None => entry_value(text@, key@) is None,
        },
{
    let chars = characters(text);
    let key_chars = characters(key);
    let mut start: usize = 0;
    assert(text@.skip(0) =~= text@);
    loop
        invariant
            start <= chars.len(),
            chars@ == text@,
            key_chars@ == key@,
            entry_value(text@, key@) == entry_value(text@.skip(start as int), key@),
        decreases chars.len() - start,
    {
        let end = line_end(&chars, start);
        let ghost rest = text@.skip(start as int);
        assert(first_line(rest) =~= text@.subrange(start as int, end as int));
        if begins_entry(&chars, start, end, &key_chars) {
            let from = start + key_chars.len() + 1;
            assert(first_line(rest).skip((key@.len() + 1) as int) =~= text@.subrange(
                from as int,
                end as int,
            ));
            return Some(String::from_str(text.substring_char(from, end)));
        }
        if end >= chars.len() {
            return None;
        }
        assert(rest.skip(end - start + 1) =~= text@.skip(end + 1));
        start = end + 1;
    }
}

} // verus!
