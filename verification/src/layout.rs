//! Fitting text into the width of the terminal.

use crate::text::{char_text, repeated, slice_of};
use vstd::prelude::*;

verus! {

/// `count` blanks.
pub open spec fn blanks(count: nat) -> Seq<char> {
    Seq::new(count, |i: int| ' ')
}

/// `text` cut down to `room` characters: text that is too long loses its
/// end, and an ellipsis in the last place says so. Text that fits stays as
/// it is. With no room at all the ellipsis alone is left.
pub open spec fn fitted(text: Seq<char>, room: nat) -> Seq<char> {
    if text.len() <= room {
        text
    } else if room == 0 {
        seq!['\u{2026}']
    } else {
        text.subrange(0, room - 1).push('\u{2026}')
    }
}

/// The blanks between the two halves of a status line of `width` cells of
/// which `used` are taken: what is left, less a margin of two, and one
/// blank where nothing is left.
pub open spec fn gap(width: nat, used: nat) -> nat {
    if width <= used {
        1
    } else if width - used < 2 {
        0
    } else {
        (width - used - 2) as nat
    }
}

/// A status line of `width` cells: `left` at the left edge, cut down where
/// it would not leave `right` and a margin of two their room, then blanks,
/// then `right`.
pub open spec fn status_line_of(left: Seq<char>, right: Seq<char>, width: nat) -> Seq<char> {
    let room = if width > right.len() + 2 {
        (width - right.len() - 2) as nat
    } else {
        0
    };
    let shown = fitted(left, room);
    shown + blanks(gap(width, shown.len() + right.len())) + right
}

/// `line` in the middle of `width` cells: the blanks that are left over go
/// half before it and half behind it, the odd one behind. A line that is
/// too long stays as it is.
pub open spec fn centered_of(line: Seq<char>, width: nat) -> Seq<char> {
    let spare = if width > line.len() {
        (width - line.len()) as nat
    } else {
        0
    };
    blanks(spare / 2) + line + blanks((spare - spare / 2) as nat)
}

/// `text` cut down to `room` characters.
pub fn fit(text: &str, room: usize) -> (shown: String)
    ensures
        shown@ == fitted(text@, room as nat),
{
    let len: usize = text.unicode_len();
    if len <= room {
        String::from_str(text)
    } else {
        let whole: String = String::from_str(text);
        let mut shown: String = slice_of(&whole, 0, room.saturating_sub(1));
        let mark: String = char_text('\u{2026}');
        shown.append(mark.as_str());
        assert(shown@ =~= fitted(text@, room as nat));
        shown
    }
}

/// The status line of `width` cells with `left` and `right` at its edges.
pub fn status_line(left: &str, right: &str, width: u16) -> (line: String)
    ensures
        line@ == status_line_of(left@, right@, width as nat),
{
    let total: usize = width as usize;
    let right_len: usize = right.unicode_len();
    let room: usize = if total > right_len && total - right_len > 2 {
        total - right_len - 2
    } else {
        0
    };
    let mut line: String = fit(left, room);
    let shown_len: usize = line.as_str().unicode_len();
    let padding: usize = if total > right_len && total - right_len > shown_len {
        (total - right_len - shown_len).saturating_sub(2)
    } else {
        1
    };
    let blank: String = repeated(' ', padding);
    line.append(blank.as_str());
    line.append(right);
    line
}

/// `line` in the middle of `width` cells.
pub fn centered(line: &str, width: u16) -> (text: String)
    ensures
        text@ == centered_of(line@, width as nat),
{
    let spare: usize = (width as usize).saturating_sub(line.unicode_len());
    let before: usize = spare / 2;
    let mut text: String = repeated(' ', before);
    text.append(line);
    let behind: String = repeated(' ', spare - before);
    text.append(behind.as_str());
    text
}

} // verus!
