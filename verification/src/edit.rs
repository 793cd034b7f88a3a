//! The executable edits on a buffer, each proved against its model.

use vstd::prelude::*;
use crate::buffer::{clamp_pos, closer, is_opener, lemma_split_newlines_len, or_one_line, spaces, splice,
    spliced_lines, split_newlines, Buffer, Cursor};
use crate::document::{insert_line, remove_line, set_line, text_of};
use crate::register::{Register, RegisterKind};
use crate::text::{copy_range, push_all, skip_forward, CharClass};

verus! {

/// `line` with `del` characters at `at` replaced by `ins`.
pub fn spliced(line: &Vec<char>, at: usize, del: usize, ins: &Vec<char>) -> (out: Vec<char>)
    requires
        at + del <= line.len(),
    ensures
        out@ == splice(line@, at as int, del as int, ins@),
{
    let mut out = copy_range(line, 0, at);
    push_all(&mut out, ins);
    let tail = copy_range(line, at + del, line.len());
    push_all(&mut out, &tail);
    out
}

/// Whether electric pairing closes `c` by itself.
pub fn opens_pair(c: char) -> (b: bool)
    ensures
        b == is_opener(c),
{
    c == '(' || c == '[' || c == '{' || c == '"' || c == '\''
}

/// The delimiter that closes `c`.
pub fn closing(c: char) -> (d: char)
    ensures
        d == closer(c),
{
    if c == '(' {
        ')'
    } else if c == '[' {
        ']'
    } else if c == '{' {
        '}'
    } else {
        c
    }
}

/// The pieces of `text` between its newlines; see `split_newlines`.
pub fn split_text(text: &Vec<char>) -> (parts: Vec<Vec<char>>)
    ensures
        text_of(parts@) == split_newlines(text@),
        parts.len() >= 1,
{
    let mut parts: Vec<Vec<char>> = Vec::new();
    let mut piece: Vec<char> = Vec::new();
    let mut i: usize = 0;
    assert(text@.subrange(0, 0) =~= Seq::<char>::empty());
    assert(text_of(parts@).push(piece@) =~= split_newlines(text@.subrange(0, 0)));
    while i < text.len()
        invariant
            i <= text.len(),
            text_of(parts@).push(piece@) == split_newlines(text@.subrange(0, i as int)),
        decreases text.len() - i,
    {
        let ghost before = text_of(parts@).push(piece@);
        assert(text@.subrange(0, i + 1).drop_last() =~= text@.subrange(0, i as int));
        assert(text@.subrange(0, i + 1).last() == text@[i as int]);
        if text[i] == '\n' {
            parts.push(piece);
            piece = Vec::new();
            assert(text_of(parts@).push(piece@) =~= before.push(Seq::empty()));
        } else {
            piece.push(text[i]);
            assert(text_of(parts@).push(piece@) =~= before.update(
                before.len() - 1,
                before.last().push(text@[i as int]),
            ));
        }
        i += 1;
    }
    assert(text@.subrange(0, text.len() as int) =~= text@);
    let ghost all = text_of(parts@).push(piece@);
    parts.push(piece);
    assert(text_of(parts@) =~= all);
    parts
}

impl Buffer {
    /// The caret lies in the document.
    pub open spec fn wf(&self) -> bool {
        self@.valid()
    }

    /// A buffer over `lines`, or over one empty line when `lines` is empty,
    /// with the caret at the position nearest to `cursor`.
    pub fn new(lines: Vec<Vec<char>>, cursor: Cursor) -> (b: Buffer)
        ensures
            b.wf(),
            b@.lines == or_one_line(text_of(lines@)),
            b@.caret() == clamp_pos(b@.lines, cursor@),
    {
        let mut lines = lines;
        if lines.len() == 0 {
            lines.push(Vec::new());
            assert(text_of(lines@) =~= seq![Seq::<char>::empty()]);
        }
        let row: usize = if cursor.row < lines.len() {
            cursor.row
        } else {
            lines.len() - 1
        };
        let col: usize = if cursor.col <= lines[row].len() {
            cursor.col
        } else {
            lines[row].len()
        };
        Buffer { lines, cursor: Cursor { col, row } }
    }

    /// Whether the caret lies in the document.
    pub fn is_valid(&self) -> (ok: bool)
        ensures
            ok == self.wf(),
    {
        self.cursor.row < self.lines.len() && self.cursor.col <= self.lines[self.cursor.row].len()
    }

    /// The number of lines.
    pub fn line_count(&self) -> (n: usize)
        ensures
            n == self@.lines.len(),
    {
        self.lines.len()
    }

    /// The length of the caret's line.
    pub fn line_len(&self) -> (n: usize)
        requires
            self.wf(),
        ensures
            n == self@.line().len(),
    {
        self.lines[self.cursor.row].len()
    }

    /// Inserts `c` at the caret; see `Doc::insert_char`.
    pub fn insert_char(&mut self, c: char, pair: bool)
        requires
            old(self).wf(),
        ensures
            final(self)@ == old(self)@.insert_char(c, pair),
            final(self).wf(),
    {
        let row = self.cursor.row;
        let col = self.cursor.col;
        let mut ins: Vec<char> = Vec::new();
        ins.push(c);
        if pair && opens_pair(c) {
            ins.push(closing(c));
            assert(ins@ =~= seq![c, closer(c)]);
        } else {
            assert(ins@ =~= seq![c]);
        }
        let line = spliced(&self.lines[row], col, 0, &ins);
        assert(line.len() >= col + 1);
        set_line(&mut self.lines, row, line);
        self.cursor.col = col + 1;
    }

    /// Removes what is before the caret; see `Doc::backspace`.
    pub fn backspace(&mut self, pair: bool)
        requires
            old(self).wf(),
        ensures
            final(self)@ == old(self)@.backspace(pair),
            final(self).wf(),
    {
        let row = self.cursor.row;
        let col = self.cursor.col;
        if col > 0 {
            let k = col - 1;
            let len = self.lines[row].len();
            let width: usize = if pair && k + 1 < len && opens_pair(self.lines[row][k])
                && self.lines[row][k + 1] == closing(self.lines[row][k]) {
                2
            } else {
                1
            };
            let none: Vec<char> = Vec::new();
            let line = spliced(&self.lines[row], k, width, &none);
            assert(none@ =~= Seq::<char>::empty());
            set_line(&mut self.lines, row, line);
            self.cursor.col = k;
        } else if row > 0 {
            let line = remove_line(&mut self.lines, row);
            assert(text_of(self.lines@)[row - 1] == self.lines@[row - 1]@);
            let mut joined = copy_range(&self.lines[row - 1], 0, self.lines[row - 1].len());
            let at = joined.len();
            push_all(&mut joined, &line);
            let ghost prev = old(self)@.lines[row - 1];
            assert(joined@ =~= prev + old(self)@.line());
            set_line(&mut self.lines, row - 1, joined);
            assert(self@.lines =~= old(self)@.lines.update(row - 1, prev + old(self)@.line()).remove(
                row as int,
            ));
            self.cursor.row = row - 1;
            self.cursor.col = at;
        }
    }

    /// Removes what is under the caret and returns the character removed,
    /// if one was; see `Doc::delete_at_cursor`.
    pub fn delete_at_cursor(&mut self) -> (removed: Option<char>)
        requires
            old(self).wf(),
        ensures
            final(self)@ == old(self)@.delete_at_cursor(),
            removed == old(self)@.deleted_char(),
            final(self).wf(),
    {
        let row = self.cursor.row;
        let col = self.cursor.col;
        let len = self.lines[row].len();
        if len > 0 {
            if col < len {
                let c = self.lines[row][col];
                let none: Vec<char> = Vec::new();
                let line = spliced(&self.lines[row], col, 1, &none);
                assert(none@ =~= Seq::<char>::empty());
                set_line(&mut self.lines, row, line);
                Some(c)
            } else {
                None
            }
        } else {
            if self.lines.len() > 1 {
                let last = row + 1 == self.lines.len();
                let _ = remove_line(&mut self.lines, row);
                if last {
                    self.cursor.row = row - 1;
                }
                self.cursor.col = 0;
            }
            None
        }
    }

    /// Breaks the line at the caret; see `Doc::split_line_at_cursor`.
    pub fn split_line_at_cursor(&mut self)
        requires
            old(self).wf(),
        ensures
            final(self)@ == old(self)@.split_line_at_cursor(),
            final(self).wf(),
    {
        let row = self.cursor.row;
        let col = self.cursor.col;
        let count = self.lines.len();
        let head = copy_range(&self.lines[row], 0, col);
        let tail = copy_range(&self.lines[row], col, self.lines[row].len());
        set_line(&mut self.lines, row, head);
        insert_line(&mut self.lines, row + 1, tail);
        self.cursor.row = row + 1;
        self.cursor.col = 0;
    }

    /// Joins the next line onto the caret's line; see `Doc::join_next_line`.
    pub fn join_next_line(&mut self)
        requires
            old(self).wf(),
        ensures
            final(self)@ == old(self)@.join_next_line(),
            final(self).wf(),
    {
        let row = self.cursor.row;
        let count = self.lines.len();
        if row + 1 < count {
            let next = remove_line(&mut self.lines, row + 1);
            let from = skip_forward(&next, CharClass::Space, 0);
            let rest = copy_range(&next, from, next.len());
            assert(text_of(self.lines@)[row as int] == self.lines@[row as int]@);
            let len = self.lines[row].len();
            let mut line = copy_range(&self.lines[row], 0, len);
            let ghost cur = old(self)@.line();
            assert(line@ =~= cur);
            if len > 0 && self.lines[row][len - 1] != ' ' && rest.len() > 0 {
                line.push(' ');
                assert(line@ =~= cur + seq![' ']);
            } else {
                assert(line@ =~= cur + Seq::<char>::empty());
            }
            push_all(&mut line, &rest);
            set_line(&mut self.lines, row, line);
            assert(self@.lines =~= old(self)@.join_next_line().lines);
        }
    }

    /// Opens an indented line above or below; see `Doc::open_line`.
    pub fn open_line(&mut self, above: bool)
        requires
            old(self).wf(),
        ensures
            final(self)@ == old(self)@.open_line(above),
            final(self).wf(),
    {
        let row = self.cursor.row;
        let n = skip_forward(&self.lines[row], CharClass::Space, 0);
        let count = self.lines.len();
        let mut line: Vec<char> = Vec::new();
        let mut i: usize = 0;
        assert(line@ =~= spaces(0));
        while i < n
            invariant
                i <= n,
                line@ == spaces(i as nat),
            decreases n - i,
        {
            line.push(' ');
            i += 1;
            assert(line@ =~= spaces(i as nat));
        }
        let at: usize = if above {
            row
        } else {
            row + 1
        };
        insert_line(&mut self.lines, at, line);
        self.cursor.row = at;
        self.cursor.col = n;
    }

    /// Removes text from the caret on, or the whole line at its end, and
    /// returns what the register is to hold: the removed tail,
    /// character-wise, or the removed line, line-wise. Returns nothing, and
    /// changes nothing, at the end of the last line.
    pub fn kill_line(&mut self) -> (killed: Option<Register>)
        requires
            old(self).wf(),
        ensures
            final(self)@ == old(self)@.kill_line(),
            final(self).wf(),
            killed is Some <==> old(self)@.kills(),
            killed is Some ==> killed->0.text@ == old(self)@.killed_text(),
            killed is Some ==> (killed->0.kind == RegisterKind::Linewise <==> old(
                self,
            )@.kills_whole_line()),
    {
        let row = self.cursor.row;
        let col = self.cursor.col;
        let count = self.lines.len();
        let len = self.lines[row].len();
        if col < len {
            let tail = copy_range(&self.lines[row], col, len);
            let head = copy_range(&self.lines[row], 0, col);
            set_line(&mut self.lines, row, head);
            Some(Register { text: tail, kind: RegisterKind::Charwise })
        } else if row + 1 < count {
            let line = remove_line(&mut self.lines, row);
            assert(text_of(self.lines@)[row as int] == self.lines@[row as int]@);
            let next_len = self.lines[row].len();
            if col > next_len {
                self.cursor.col = next_len;
            }
            Some(Register { text: line, kind: RegisterKind::Linewise })
        } else {
            None
        }
    }

    /// Puts the register's text into the document; see `Doc::paste`.
    pub fn paste(&mut self, register: &Register, after: bool)
        requires
            old(self).wf(),
        ensures
            final(self)@ == old(self)@.paste(
                register.text@,
                register.kind == RegisterKind::Linewise,
                after,
            ),
            final(self).wf(),
    {
        let row = self.cursor.row;
        let col = self.cursor.col;
        let count = self.lines.len();
        if register.is_linewise() {
            let at: usize = if after {
                row + 1
            } else {
                row
            };
            let line = copy_range(&register.text, 0, register.text.len());
            assert(line@ =~= register.text@);
            insert_line(&mut self.lines, at, line);
            self.cursor.row = at;
            self.cursor.col = 0;
        } else {
            let len = self.lines[row].len();
            let at: usize = if after && col < len {
                col + 1
            } else {
                col
            };
            let ghost old_lines = self@.lines;
            let ghost pieces = split_newlines(register.text@);
            proof {
                lemma_split_newlines_len(register.text@);
            }
            let head = copy_range(&self.lines[row], 0, at);
            let tail = copy_range(&self.lines[row], at, len);
            let ghost block = spliced_lines(head@, pieces, tail@);
            let parts = split_text(&register.text);
            let last = parts.len() - 1;
            let _ = remove_line(&mut self.lines, row);
            let mut end: usize = 0;
            let mut i: usize = 0;
            while i < parts.len()
                invariant
                    i <= parts.len(),
                    last == parts.len() - 1,
                    at == head@.len(),
                    i > last ==> end == (if last == 0 {
                        at + pieces[0].len()
                    } else {
                        pieces[last as int].len() as int
                    }),
                    text_of(parts@) == pieces,
                    block == spliced_lines(head@, pieces, tail@),
                    row < old_lines.len(),
                    self.lines.len() == old_lines.len() - 1 + i,
                    self.cursor == old(self).cursor,
                    text_of(self.lines@) == old_lines.subrange(0, row as int) + block.subrange(
                        0,
                        i as int,
                    ) + old_lines.subrange(row + 1, old_lines.len() as int),
                decreases parts.len() - i,
            {
                let mut line: Vec<char> = Vec::new();
                if i == 0 {
                    push_all(&mut line, &head);
                }
                assert(text_of(parts@)[i as int] == parts@[i as int]@);
                push_all(&mut line, &parts[i]);
                if i == last {
                    push_all(&mut line, &tail);
                    end = line.len() - tail.len();
                }
                assert(line@ =~= block[i as int]);
                insert_line(&mut self.lines, row + i, line);
                i += 1;
                assert(text_of(self.lines@) =~= old_lines.subrange(0, row as int) + block.subrange(
                    0,
                    i as int,
                ) + old_lines.subrange(row + 1, old_lines.len() as int));
            }
            assert(block.subrange(0, parts.len() as int) =~= block);
            self.cursor.row = row + last;
            self.cursor.col = end;
        }
    }
}

} // verus!
