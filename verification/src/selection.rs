//! Spans between two positions of a document: their text, copying them and
//! cutting them out.

use vstd::prelude::*;
use crate::buffer::{has_pos, Buffer, Cursor, Doc, Pos};
use crate::document::{remove_line, set_line, text_of};
use crate::search::pos_le;
use crate::text::{copy_range, push_all};

verus! {

/// The earlier of two positions.
pub open spec fn span_start(a: Pos, b: Pos) -> Pos {
    if pos_le(a, b) {
        a
    } else {
        b
    }
}

/// The later of two positions.
pub open spec fn span_last(a: Pos, b: Pos) -> Pos {
    if pos_le(a, b) {
        b
    } else {
        a
    }
}

/// The position just after `last`: the next column, or the start of the
/// next line when `last` is at the end of a line that is not the last one.
/// At the end of the document it is `last` itself.
pub open spec fn span_end(lines: Seq<Seq<char>>, last: Pos) -> Pos {
    if last.col < lines[last.row].len() {
        Pos { col: last.col + 1, row: last.row }
    } else if last.row + 1 < lines.len() {
        Pos { col: 0, row: last.row + 1 }
    } else {
        last
    }
}

/// The lines `from..to`, each followed by a newline.
pub open spec fn whole_lines(lines: Seq<Seq<char>>, from: int, to: int) -> Seq<char>
    decreases to - from,
{
    if from >= to {
        Seq::empty()
    } else {
        whole_lines(lines, from, to - 1) + lines[to - 1] + seq!['\n']
    }
}

/// The text from `s` to the end of its line, the whole lines up to row
/// `row`, and the first `upto` characters of that row, joined by newlines.
pub open spec fn text_across(lines: Seq<Seq<char>>, s: Pos, row: int, upto: int) -> Seq<char> {
    lines[s.row].subrange(s.col, lines[s.row].len() as int) + seq!['\n'] + whole_lines(
        lines,
        s.row + 1,
        row,
    ) + lines[row].subrange(0, upto)
}

/// The text from `s` up to, and not including, `e`.
pub open spec fn text_between(lines: Seq<Seq<char>>, s: Pos, e: Pos) -> Seq<char> {
    if s.row == e.row {
        lines[s.row].subrange(s.col, e.col)
    } else {
        text_across(lines, s, e.row, e.col)
    }
}

/// The text that a copy of the span from `s` up to `e` takes. Within one
/// line it is the text between the two. Across lines it stops one
/// character earlier on the last line.
pub open spec fn copied_text(lines: Seq<Seq<char>>, s: Pos, e: Pos) -> Seq<char> {
    if s.row == e.row {
        lines[s.row].subrange(s.col, e.col)
    } else {
        text_across(
            lines,
            s,
            e.row,
            if e.col > 0 {
                e.col - 1
            } else {
                0
            },
        )
    }
}

/// The document without the text from `s` up to `e`: what is left of the
/// two lines becomes one line.
pub open spec fn without_span(lines: Seq<Seq<char>>, s: Pos, e: Pos) -> Seq<Seq<char>> {
    lines.subrange(0, s.row) + seq![
        lines[s.row].subrange(0, s.col) + lines[e.row].subrange(e.col, lines[e.row].len() as int),
    ] + lines.subrange(e.row + 1, lines.len() as int)
}

impl Doc {
    /// The position just after the later end of the selection.
    pub open spec fn selection_end(self, anchor: Pos, active: Pos) -> Pos {
        span_end(self.lines, span_last(anchor, active))
    }

    /// The text of the selection: from the earlier end through the later
    /// end, both included. A later end at the end of a line includes the
    /// line break.
    pub open spec fn selection_text(self, anchor: Pos, active: Pos) -> Seq<char> {
        text_between(self.lines, span_start(anchor, active), self.selection_end(anchor, active))
    }

    /// The text that copying the selection puts into the register; see
    /// `copied_text`.
    pub open spec fn copied(self, anchor: Pos, active: Pos) -> Seq<char> {
        copied_text(self.lines, span_start(anchor, active), self.selection_end(anchor, active))
    }

    /// Copying leaves the document as it is and puts the caret at the
    /// earlier end of the selection.
    pub open spec fn copy_selection(self, anchor: Pos, active: Pos) -> Doc {
        self.at(span_start(anchor, active))
    }

    /// Cutting removes the selection's text, merges what is left of its
    /// first and last line, and puts the caret at the earlier end.
    pub open spec fn delete_selection(self, anchor: Pos, active: Pos) -> Doc {
        Doc {
            lines: without_span(
                self.lines,
                span_start(anchor, active),
                self.selection_end(anchor, active),
            ),
            col: span_start(anchor, active).col,
            row: span_start(anchor, active).row,
        }
    }
}

/// The two positions in document order.
pub fn ordered(a: Cursor, b: Cursor) -> (r: (Cursor, Cursor))
    ensures
        r.0@ == span_start(a@, b@),
        r.1@ == span_last(a@, b@),
{
    if a.row < b.row || (a.row == b.row && a.col <= b.col) {
        (a, b)
    } else {
        (b, a)
    }
}

/// The position just after `last`; see `span_end`.
pub fn end_of_span(lines: &Vec<Vec<char>>, last: Cursor) -> (e: Cursor)
    requires
        has_pos(text_of(lines@), last@),
    ensures
        e@ == span_end(text_of(lines@), last@),
        has_pos(text_of(lines@), e@),
        pos_le(last@, e@),
{
    let count = lines.len();
    if last.col < lines[last.row].len() {
        Cursor { col: last.col + 1, row: last.row }
    } else if last.row + 1 < count {
        Cursor { col: 0, row: last.row + 1 }
    } else {
        last
    }
}

/// Collects the text from `s` to the end of its line, the whole lines up
/// to row `row`, and the first `upto` characters of that row.
pub fn gather(lines: &Vec<Vec<char>>, s: Cursor, row: usize, upto: usize) -> (out: Vec<char>)
    requires
        has_pos(text_of(lines@), s@),
        s.row < row < lines.len(),
        upto <= text_of(lines@)[row as int].len(),
    ensures
        out@ == text_across(text_of(lines@), s@, row as int, upto as int),
{
    let ghost text = text_of(lines@);
    let mut out = copy_range(&lines[s.row], s.col, lines[s.row].len());
    out.push('\n');
    let ghost head = out@;
    let mut r: usize = s.row + 1;
    assert(out@ =~= head + whole_lines(text, s.row + 1, r as int));
    while r < row
        invariant
            s.row < r <= row < lines.len(),
            text == text_of(lines@),
            out@ == head + whole_lines(text, s.row + 1, r as int),
        decreases row - r,
    {
        push_all(&mut out, &lines[r]);
        out.push('\n');
        r += 1;
        assert(out@ =~= head + whole_lines(text, s.row + 1, r as int));
    }
    let tail = copy_range(&lines[row], 0, upto);
    push_all(&mut out, &tail);
    assert(out@ =~= text_across(text, s@, row as int, upto as int));
    out
}

impl Buffer {
    /// The text of the selection between `anchor` and `active`; see
    /// `Doc::selection_text`.
    pub fn selected_text(&self, anchor: Cursor, active: Cursor) -> (text: Vec<char>)
        requires
            self.wf(),
            has_pos(self@.lines, anchor@),
            has_pos(self@.lines, active@),
        ensures
            text@ == self@.selection_text(anchor@, active@),
    {
        let (s, last) = ordered(anchor, active);
        let e = end_of_span(&self.lines, last);
        if s.row == e.row {
            copy_range(&self.lines[s.row], s.col, e.col)
        } else {
            gather(&self.lines, s, e.row, e.col)
        }
    }

    /// Copies the selection between `anchor` and `active`: returns the
    /// text for the register and puts the caret at the earlier end. The
    /// document stays as it is. See `Doc::copied`.
    pub fn copy_selection(&mut self, anchor: Cursor, active: Cursor) -> (text: Vec<char>)
        requires
            old(self).wf(),
            has_pos(old(self)@.lines, anchor@),
            has_pos(old(self)@.lines, active@),
        ensures
            final(self)@ == old(self)@.copy_selection(anchor@, active@),
            text@ == old(self)@.copied(anchor@, active@),
            final(self).wf(),
    {
        let (s, last) = ordered(anchor, active);
        let e = end_of_span(&self.lines, last);
        let text = if s.row == e.row {
            copy_range(&self.lines[s.row], s.col, e.col)
        } else {
            let upto: usize = if e.col > 0 {
                e.col - 1
            } else {
                0
            };
            gather(&self.lines, s, e.row, upto)
        };
        self.cursor = s;
        text
    }

    /// Cuts the selection between `anchor` and `active` out of the
    /// document: returns the removed text and puts the caret at the earlier
    /// end. See `Doc::delete_selection`.
    pub fn delete_selection(&mut self, anchor: Cursor, active: Cursor) -> (removed: Vec<char>)
        requires
            old(self).wf(),
            has_pos(old(self)@.lines, anchor@),
            has_pos(old(self)@.lines, active@),
        ensures
            final(self)@ == old(self)@.delete_selection(anchor@, active@),
            removed@ == old(self)@.selection_text(anchor@, active@),
            final(self).wf(),
    {
        let (s, last) = ordered(anchor, active);
        let e = end_of_span(&self.lines, last);
        let ghost text = self@.lines;
        let removed = if s.row == e.row {
            copy_range(&self.lines[s.row], s.col, e.col)
        } else {
            gather(&self.lines, s, e.row, e.col)
        };
        let mut merged = copy_range(&self.lines[s.row], 0, s.col);
        let rest = copy_range(&self.lines[e.row], e.col, self.lines[e.row].len());
        push_all(&mut merged, &rest);
        let mut k: usize = s.row;
        while k < e.row
            invariant
                s.row <= k <= e.row < text.len(),
                text_of(self.lines@) == text.subrange(0, s.row + 1) + text.subrange(
                    k + 1,
                    text.len() as int,
                ),
                self.lines.len() == text.len() - (k - s.row),
            decreases e.row - k,
        {
            let _ = remove_line(&mut self.lines, s.row + 1);
            k += 1;
            assert(text_of(self.lines@) =~= text.subrange(0, s.row + 1) + text.subrange(
                k + 1,
                text.len() as int,
            ));
        }
        set_line(&mut self.lines, s.row, merged);
        assert(text_of(self.lines@) =~= without_span(text, s@, e@));
        self.cursor = s;
        removed
    }
}

} // verus!
