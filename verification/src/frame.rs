//! What a frame shows: the numbers that the renderer needs, computed from
//! the engine's state.

use vstd::prelude::*;
use crate::buffer::{split_newlines, Cursor, Pos};
use crate::edit::split_text;
use crate::search::{line_match, occurs_at};
use crate::session::Mode;

verus! {

/// How the number of a line is drawn.
#[derive(Clone, Copy, Debug, PartialEq, Eq, Structural)]
pub enum NumberStyle {
    /// The caret's line in Normal mode.
    Current,
    /// The caret's line in Insert mode.
    Inserting,
    /// Every other line.
    Plain,
}

/// A range of columns: from `from` up to, and not including, `to`.
#[derive(Clone, Copy, Debug, PartialEq, Eq, Structural)]
pub struct Columns {
    pub from: usize,
    pub to: usize,
}

/// Whether the caret blinks on or off, and how often it has blinked since
/// the last key.
#[derive(Clone, Copy, Debug, PartialEq, Eq, Structural)]
pub struct Blink {
    pub on: bool,
    pub count: u8,
}

/// The column at which the text starts: after two columns of fringe and
/// four of line numbers, where they are shown.
pub open spec fn text_start(show_fringe: bool, show_line_numbers: bool) -> int {
    (if show_fringe {
        2int
    } else {
        0int
    }) + (if show_line_numbers {
        4int
    } else {
        0int
    })
}

/// The first column of row `row` that a selection from `start` through
/// `end` covers.
pub open spec fn selected_from(len: int, row: int, start: Pos) -> int {
    if row == start.row && start.col < len {
        start.col
    } else if row == start.row {
        len
    } else {
        0
    }
}

/// The column of row `row` just after the last one that a selection from
/// `start` through `end` covers.
pub open spec fn selected_to(len: int, row: int, end: Pos) -> int {
    if row == end.row && end.col + 1 < len {
        end.col + 1
    } else {
        len
    }
}

/// The column of the first occurrence of `query` in `line` at or after
/// `from`, or the length of the line when there is none.
pub open spec fn next_occurrence(line: Seq<char>, query: Seq<char>, from: int) -> int
    decreases line.len() - from,
{
    if from < 0 || from >= line.len() {
        line.len() as int
    } else if line_match(line, query, from) {
        from
    } else {
        next_occurrence(line, query, from + 1)
    }
}

/// The columns at which the occurrences of `query` in `line` start that do
/// not overlap, from `from` on and from left to right.
pub open spec fn occurrences(line: Seq<char>, query: Seq<char>, from: int) -> Seq<int>
    decreases line.len() - from,
{
    let at = next_occurrence(line, query, from);
    if 0 <= from <= at && line_match(line, query, at) {
        seq![at] + occurrences(line, query, at + query.len())
    } else {
        Seq::empty()
    }
}

/// The row of the window on which the caret is drawn: its distance from
/// the window's top, at most the last row.
pub open spec fn caret_row(row: int, offset: int, rows: int) -> int {
    let down = if row >= offset {
        row - offset
    } else {
        0
    };
    if rows >= 1 && down > rows - 1 {
        rows - 1
    } else if rows < 1 {
        0
    } else {
        down
    }
}

/// The blanks between the file's name and the caret's position on a
/// modeline of `width` columns; none when the line is too narrow.
pub open spec fn modeline_gap(width: int, mode: int, name: int, position: int, dired: bool) -> int {
    let used = 4 + mode + name + position + 2 + (if dired {
        0int
    } else {
        3int
    });
    if width > used {
        width - used
    } else {
        0
    }
}

impl Blink {
    /// Whether the caret blinks at all at this point: blinking is switched
    /// on, and the limit is not reached or a key was just pressed.
    pub open spec fn blinking(self, enabled: bool, limit: u8, forced: bool) -> bool {
        enabled && (self.count / 2 < limit || forced)
    }

    /// The state after a frame. While the caret blinks, it toggles when
    /// the blink interval has passed, and the toggle counts unless a key was
    /// just pressed. A key press starts the count anew.
    pub open spec fn step(self, enabled: bool, limit: u8, forced: bool, elapsed: bool) -> Blink {
        let toggled = self.blinking(enabled, limit, forced) && elapsed;
        Blink {
            on: if toggled {
                !self.on
            } else {
                self.on
            },
            count: if forced {
                0
            } else if toggled && self.count < 255 {
                (self.count + 1) as u8
            } else {
                self.count
            },
        }
    }

    /// Whether the caret is drawn in this frame: always when it does not
    /// blink or a key was just pressed, else when the blink is on.
    pub open spec fn shows(self, enabled: bool, limit: u8, forced: bool, elapsed: bool) -> bool {
        !self.blinking(enabled, limit, forced) || forced || self.step(
            enabled,
            limit,
            forced,
            elapsed,
        ).on
    }

    /// A caret that is on and has not blinked yet.
    pub fn new() -> (b: Blink)
        ensures
            b.on,
            b.count == 0,
    {
        Blink { on: true, count: 0 }
    }

    /// Advances the blink by one frame and says whether to draw the
    /// caret; see `step` and `shows`.
    pub fn frame(&mut self, enabled: bool, limit: u8, forced: bool, elapsed: bool) -> (visible: bool)
        ensures
            *final(self) == old(self).step(enabled, limit, forced, elapsed),
            visible == old(self).shows(enabled, limit, forced, elapsed),
    {
        let blinking = enabled && (self.count / 2 < limit || forced);
        if blinking && elapsed {
            self.on = !self.on;
            if !forced && self.count < 255 {
                self.count += 1;
            }
        }
        let visible = !blinking || forced || self.on;
        if forced {
            self.count = 0;
        }
        visible
    }
}

/// The column at which the text starts; see `text_start`.
pub fn text_column(show_fringe: bool, show_line_numbers: bool) -> (col: usize)
    ensures
        col == text_start(show_fringe, show_line_numbers),
{
    let fringe: usize = if show_fringe {
        2
    } else {
        0
    };
    let numbers: usize = if show_line_numbers {
        4
    } else {
        0
    };
    fringe + numbers
}

/// How the number of row `row` is drawn.
pub fn number_style(mode: Mode, row: usize, caret_row: usize) -> (style: NumberStyle)
    ensures
        style == (if row == caret_row && mode == Mode::Normal {
            NumberStyle::Current
        } else if row == caret_row && mode == Mode::Insert {
            NumberStyle::Inserting
        } else {
            NumberStyle::Plain
        }),
{
    if row != caret_row {
        NumberStyle::Plain
    } else {
        match mode {
            Mode::Normal => NumberStyle::Current,
            Mode::Insert => NumberStyle::Inserting,
            _ => NumberStyle::Plain,
        }
    }
}

/// The columns of row `row`, of length `len`, that a selection from
/// `start` through `end` covers. Nothing for a row outside the selection.
pub fn selection_on_row(len: usize, row: usize, start: Cursor, end: Cursor) -> (columns: Option<
    Columns,
>)
    ensures
        columns is Some <==> start.row <= row <= end.row && selected_from(
            len as int,
            row as int,
            start@,
        ) <= selected_to(len as int, row as int, end@),
        columns is Some ==> columns->0.from == selected_from(len as int, row as int, start@)
            && columns->0.to == selected_to(len as int, row as int, end@),
{
    if row < start.row || row > end.row {
        return None;
    }
    let from: usize = if row == start.row && start.col < len {
        start.col
    } else if row == start.row {
        len
    } else {
        0
    };
    let to: usize = if row == end.row && end.col < len && end.col + 1 < len {
        end.col + 1
    } else {
        len
    };
    if from <= to {
        Some(Columns { from, to })
    } else {
        None
    }
}

/// The columns at which the occurrences of `query` in `line` start that do
/// not overlap; see `occurrences`.
pub fn match_starts(line: &Vec<char>, query: &Vec<char>) -> (starts: Vec<usize>)
    ensures
        starts@.len() == occurrences(line@, query@, 0).len(),
        forall|i: int| 0 <= i < starts@.len() ==> starts@[i] == occurrences(line@, query@, 0)[i],
{
    let mut starts: Vec<usize> = Vec::new();
    if query.len() == 0 {
        return starts;
    }
    let ghost all = occurrences(line@, query@, 0);
    let ghost mut found: Seq<int> = Seq::empty();
    let mut from: usize = 0;
    let mut scan: usize = 0;
    while scan < line.len()
        invariant
            from <= scan <= line.len(),
            query.len() > 0,
            all == occurrences(line@, query@, 0),
            all == found + occurrences(line@, query@, from as int),
            next_occurrence(line@, query@, from as int) == next_occurrence(
                line@,
                query@,
                scan as int,
            ),
            starts@.len() == found.len(),
            forall|i: int| 0 <= i < found.len() ==> starts@[i] == found[i],
        decreases line.len() - scan,
    {
        if occurs_at(line, query, scan) {
            starts.push(scan);
            proof {
                let rest = occurrences(line@, query@, scan + query.len());
                assert(occurrences(line@, query@, from as int) =~= seq![scan as int] + rest);
                assert(found.push(scan as int) + rest =~= found + (seq![scan as int] + rest));
                found = found.push(scan as int);
            }
            from = scan + query.len();
            scan = from;
        } else {
            scan += 1;
        }
    }
    proof {
        assert(occurrences(line@, query@, from as int) =~= Seq::<int>::empty());
        assert(all =~= found);
    }
    starts
}

/// The row of the window on which the caret is drawn; see `caret_row`.
pub fn caret_screen_row(row: usize, offset: usize, rows: usize) -> (y: usize)
    ensures
        y == caret_row(row as int, offset as int, rows as int),
{
    let down: usize = if row >= offset {
        row - offset
    } else {
        0
    };
    if rows >= 1 && down > rows - 1 {
        rows - 1
    } else if rows < 1 {
        0
    } else {
        down
    }
}

/// The blanks between the file's name and the caret's position on the
/// modeline; see `modeline_gap`.
pub fn modeline_fill(width: usize, mode: usize, name: usize, position: usize, dired: bool) -> (gap: usize)
    ensures
        gap == modeline_gap(width as int, mode as int, name as int, position as int, dired),
{
    let extra: u128 = if dired {
        0
    } else {
        3
    };
    let used: u128 = 4 + mode as u128 + name as u128 + position as u128 + 2 + extra;
    if width as u128 > used {
        (width as u128 - used) as usize
    } else {
        0
    }
}

/// The rows that a text takes in the minibuffer: one more than it has
/// newlines.
pub fn minibuffer_rows(content: &Vec<char>) -> (rows: usize)
    ensures
        rows == split_newlines(content@).len(),
        rows >= 1,
{
    split_text(content).len()
}

} // verus!
