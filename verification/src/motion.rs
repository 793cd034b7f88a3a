//! Caret moves that leave the document unchanged.

use vstd::prelude::*;
use crate::buffer::{Buffer, Doc};
use crate::text::{skip_backward, skip_forward, CharClass};

verus! {

impl Buffer {
    /// One column left; see `Doc::move_left`.
    pub fn move_left(&mut self)
        requires
            old(self).wf(),
        ensures
            final(self)@ == old(self)@.move_left(),
            final(self).wf(),
    {
        if self.cursor.col > 0 {
            self.cursor.col -= 1;
        }
    }

    /// One column right; see `Doc::move_right`.
    pub fn move_right(&mut self)
        requires
            old(self).wf(),
        ensures
            final(self)@ == old(self)@.move_right(),
            final(self).wf(),
    {
        if self.cursor.col < self.lines[self.cursor.row].len() {
            self.cursor.col += 1;
        }
    }

    /// One column right, staying on a character; see
    /// `Doc::move_right_within`.
    pub fn move_right_within(&mut self)
        requires
            old(self).wf(),
        ensures
            final(self)@ == old(self)@.move_right_within(),
            final(self).wf(),
    {
        let len = self.lines[self.cursor.row].len();
        if self.cursor.col < len && self.cursor.col + 1 < len {
            self.cursor.col += 1;
        }
    }

    /// One row up; see `Doc::move_up`.
    pub fn move_up(&mut self)
        requires
            old(self).wf(),
        ensures
            final(self)@ == old(self)@.move_up(),
            final(self).wf(),
    {
        if self.cursor.row > 0 {
            self.cursor.row -= 1;
            let len = self.lines[self.cursor.row].len();
            if self.cursor.col > len {
                self.cursor.col = len;
            }
        }
    }

    /// One row down; see `Doc::move_down`.
    pub fn move_down(&mut self)
        requires
            old(self).wf(),
        ensures
            final(self)@ == old(self)@.move_down(),
            final(self).wf(),
    {
        let count = self.lines.len();
        if self.cursor.row + 1 < count {
            self.cursor.row += 1;
            let len = self.lines[self.cursor.row].len();
            if self.cursor.col > len {
                self.cursor.col = len;
            }
        }
    }

    /// To column zero.
    pub fn move_home(&mut self)
        requires
            old(self).wf(),
        ensures
            final(self)@ == (Doc { col: 0, ..old(self)@ }),
            final(self).wf(),
    {
        self.cursor.col = 0;
    }

    /// To just past the last character of the line.
    pub fn move_end(&mut self)
        requires
            old(self).wf(),
        ensures
            final(self)@ == (Doc { col: old(self)@.line().len() as int, ..old(self)@ }),
            final(self).wf(),
    {
        self.cursor.col = self.lines[self.cursor.row].len();
    }

    /// To the first character that is neither space nor tab; see
    /// `Doc::back_to_indentation`.
    pub fn back_to_indentation(&mut self)
        requires
            old(self).wf(),
        ensures
            final(self)@ == old(self)@.back_to_indentation(),
            final(self).wf(),
    {
        let row = self.cursor.row;
        let i = skip_forward(&self.lines[row], CharClass::Blank, 0);
        self.cursor.col = if i < self.lines[row].len() {
            i
        } else {
            0
        };
    }

    /// To the start of the line's text, or from there to column zero; see
    /// `Doc::mwim_beginning`.
    pub fn mwim_beginning(&mut self)
        requires
            old(self).wf(),
        ensures
            final(self)@ == old(self)@.mwim_beginning(),
            final(self).wf(),
    {
        let row = self.cursor.row;
        let i = skip_forward(&self.lines[row], CharClass::Whitespace, 0);
        let start: usize = if i < self.lines[row].len() {
            i
        } else {
            0
        };
        self.cursor.col = if self.cursor.col == start {
            0
        } else {
            start
        };
    }

    /// To the end of the line's text, or from there to the end of the line;
    /// see `Doc::mwim_end`.
    pub fn mwim_end(&mut self)
        requires
            old(self).wf(),
        ensures
            final(self)@ == old(self)@.mwim_end(),
            final(self).wf(),
    {
        let row = self.cursor.row;
        let len = self.lines[row].len();
        let j = skip_backward(&self.lines[row], CharClass::Whitespace, len);
        let end: usize = if j > 0 {
            j
        } else {
            len
        };
        self.cursor.col = if self.cursor.col == end {
            len
        } else {
            end
        };
    }

    /// To the start of line number `n`, counted from one. Returns whether
    /// the document has such a line; the caret stays where it is when not.
    pub fn goto_line(&mut self, n: usize) -> (found: bool)
        requires
            old(self).wf(),
        ensures
            final(self)@ == old(self)@.goto_line(n as int),
            found == (1 <= n <= old(self)@.lines.len()),
            final(self).wf(),
    {
        if n == 0 || n > self.lines.len() {
            false
        } else {
            self.cursor.row = n - 1;
            self.cursor.col = 0;
            true
        }
    }

    /// To the start of the document.
    pub fn move_to_top(&mut self)
        requires
            old(self).wf(),
        ensures
            final(self)@ == (Doc { lines: old(self)@.lines, col: 0, row: 0 }),
            final(self).wf(),
    {
        self.cursor.row = 0;
        self.cursor.col = 0;
    }

    /// To the end of the last line; see `Doc::to_bottom`.
    pub fn move_to_bottom(&mut self)
        requires
            old(self).wf(),
        ensures
            final(self)@ == old(self)@.to_bottom(),
            final(self).wf(),
    {
        let last = self.lines.len() - 1;
        self.cursor.row = last;
        self.cursor.col = self.lines[last].len();
    }
}

} // verus!
