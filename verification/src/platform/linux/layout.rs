//! The layout in the answer of `setxkbmap -query`.

use crate::input::layout::KeyboardLayout;
use crate::text::{
    chars_of, find_char, has_prefix, index_of_char, matches_at, trim_range, trimmed,
};
use vstd::prelude::*;
use vstd::string::*;

verus! {

/// Where the line that begins at `from` ends: at the next line feed, or at the
/// end of the text.
pub open spec fn line_end(text: Seq<char>, from: int) -> int {
    from + index_of_char(text.subrange(from, text.len() as int), '\n')
}

/// The line that begins at `from`, without its line feed and without a carriage
/// return before the line feed.
pub open spec fn line_at(text: Seq<char>, from: int) -> Seq<char> {
    let end = line_end(text, from);
    if end < text.len() && from < end && text[end - 1] == '\r' {
        text.subrange(from, end - 1)
    } else {
        text.subrange(from, end)
    }
}

/// The layout that a `layout:` line names: of what stands between the first
/// colon and the next, the part before the first comma, both trimmed.
pub open spec fn layout_of_line(line: Seq<char>) -> KeyboardLayout {
    let rest = line.skip(7);
    let field = trimmed(rest.take(index_of_char(rest, ':') as int));
    let primary = trimmed(field.take(index_of_char(field, ',') as int));
    if primary == "gb"@ {
        KeyboardLayout::UnitedKingdom
    } else if primary == "us"@ {
        KeyboardLayout::UnitedStates
    } else {
        KeyboardLayout::Other(0)
    }
}

/// The layout named by the first line, at or after `from`, that begins with
/// `layout:`; `Other(0)` where there is no such line.
pub open spec fn layout_in(text: Seq<char>, from: int) -> KeyboardLayout
    decreases text.len() - from,
{
    if from < 0 || from >= text.len() {
        KeyboardLayout::Other(0)
    } else if has_prefix(line_at(text, from), "layout:"@) {
        layout_of_line(line_at(text, from))
    } else if line_end(text, from) < text.len() {
        layout_in(text, line_end(text, from) + 1)
    } else {
        KeyboardLayout::Other(0)
    }
}

/// Reads the layout out of the characters from `from` to `to`, which are a line
/// that begins with `layout:`.
fn layout_from_line(chars: &Vec<char>, from: usize, to: usize) -> (layout: KeyboardLayout)
    requires
        from + 7 <= to <= chars@.len(),
    ensures
        layout == layout_of_line(chars@.subrange(from as int, to as int)),
{
    let ghost line = chars@.subrange(from as int, to as int);
    let ghost rest = line.skip(7);
    assert(rest =~= chars@.subrange(from + 7, to as int));
    let colon = find_char(chars, from + 7, to, ':');
    assert(chars@.subrange(from + 7, colon as int) =~= rest.take(colon - from - 7));
    let field = trim_range(chars, from + 7, colon);
    let ghost field_text = chars@.subrange(field.0 as int, field.1 as int);
    let comma = find_char(chars, field.0, field.1, ',');
    assert(chars@.subrange(field.0 as int, comma as int) =~= field_text.take(comma - field.0));
    let primary = trim_range(chars, field.0, comma);
    let ghost primary_text = chars@.subrange(primary.0 as int, primary.1 as int);
    assert(field_text == trimmed(rest.take(index_of_char(rest, ':') as int)));
    assert(primary_text == trimmed(field_text.take(index_of_char(field_text, ',') as int)));
    proof {
        reveal_strlit("gb");
        reveal_strlit("us");
    }
    let gb = chars_of("gb");
    let us = chars_of("us");
    if primary.1 - primary.0 == 2 && matches_at(chars, &gb, primary.0) {
        KeyboardLayout::UnitedKingdom
    } else if primary.1 - primary.0 == 2 && matches_at(chars, &us, primary.0) {
        KeyboardLayout::UnitedStates
    } else {
        KeyboardLayout::Other(0)
    }
}

/// Reads the layout out of the answer of `setxkbmap -query`: the first of the
/// layouts that its `layout:` line lists.
pub fn layout_from_query(answer: &str) -> (layout: KeyboardLayout)
    ensures
        layout == layout_in(answer@, 0),
{
    let chars = chars_of(answer);
    let len = chars.len();
    let marker = chars_of("layout:");
    proof {
        reveal_strlit("layout:");
    }
    let mut from: usize = 0;
    while from < len
        invariant
            len == chars@.len(),
            chars@ == answer@,
            marker@ == "layout:"@,
            marker@.len() == 7,
            0 <= from,
            layout_in(answer@, 0) == layout_in(answer@, from as int),
        decreases len - from,
    {
        let end = find_char(&chars, from, len, '\n');
        let stop: usize = if end < len && from < end && chars[end - 1] == '\r' {
            end - 1
        } else {
            end
        };
        let ghost line = chars@.subrange(from as int, stop as int);
        assert(line == line_at(answer@, from as int));
        if stop - from >= 7 && matches_at(&chars, &marker, from) {
            assert(line.subrange(0, 7) =~= chars@.subrange(from as int, from + 7));
            return layout_from_line(&chars, from, stop);
        }
        proof {
            if stop - from >= 7 {
                assert(line.subrange(0, 7) =~= chars@.subrange(from as int, from + 7));
            }
        }
        if end == len {
            return KeyboardLayout::Other(0);
        }
        from = end + 1;
    }
    KeyboardLayout::Other(0)
}

} // verus!
