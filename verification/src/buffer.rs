//! The document with its caret, and the primitive edits and caret moves.
//!
//! Each operation is stated as a function on the mathematical model `Doc`;
//! the executable method is proved to compute exactly that function and to
//! leave the caret inside the document.

use vstd::prelude::*;
use crate::document::text_of;
use crate::text::{skip_class, skip_class_back, CharClass};

verus! {

/// A caret position: a column within a line, and the line's row.
#[derive(Clone, Copy, Debug, PartialEq, Eq, Structural)]
pub struct Cursor {
    pub col: usize,
    pub row: usize,
}

/// A position in the model of a document.
pub struct Pos {
    pub col: int,
    pub row: int,
}

impl View for Cursor {
    type V = Pos;

    open spec fn view(&self) -> Pos {
        Pos { col: self.col as int, row: self.row as int }
    }
}

/// The model of a document with its caret.
pub struct Doc {
    pub lines: Seq<Seq<char>>,
    pub col: int,
    pub row: int,
}

/// The document held by the editor, and the caret in it.
#[derive(Debug)]
pub struct Buffer {
    pub lines: Vec<Vec<char>>,
    pub cursor: Cursor,
}

impl View for Buffer {
    type V = Doc;

    open spec fn view(&self) -> Doc {
        Doc {
            lines: text_of(self.lines@),
            col: self.cursor.col as int,
            row: self.cursor.row as int,
        }
    }
}

/// Whether `p` lies in the document: on one of its lines, at a column up
/// to and including the line's length.
pub open spec fn has_pos(lines: Seq<Seq<char>>, p: Pos) -> bool {
    &&& 0 <= p.row < lines.len()
    &&& 0 <= p.col <= lines[p.row].len()
}

/// `line` with `del` characters at `at` replaced by `ins`.
pub open spec fn splice(line: Seq<char>, at: int, del: int, ins: Seq<char>) -> Seq<char> {
    line.subrange(0, at) + ins + line.subrange(at + del, line.len() as int)
}

/// `n` spaces.
pub open spec fn spaces(n: nat) -> Seq<char> {
    Seq::new(n, |i: int| ' ')
}

/// Whether `text` holds no newline.
pub open spec fn newline_free(text: Seq<char>) -> bool {
    forall|i: int| 0 <= i < text.len() ==> text[i] != '\n'
}

/// The pieces of `text` between its newlines: one more than it has
/// newlines.
pub open spec fn split_newlines(text: Seq<char>) -> Seq<Seq<char>>
    decreases text.len(),
{
    if text.len() == 0 {
        seq![Seq::<char>::empty()]
    } else {
        let front = split_newlines(text.drop_last());
        if text.last() == '\n' {
            front.push(Seq::empty())
        } else {
            front.update(front.len() - 1, front.last().push(text.last()))
        }
    }
}

/// The lines that stand for one line after `pieces` went in between its
/// `head` and its `tail`: the head continues with the first piece, and the
/// last piece continues with the tail.
pub open spec fn spliced_lines(head: Seq<char>, pieces: Seq<Seq<char>>, tail: Seq<char>) -> Seq<
    Seq<char>,
> {
    Seq::new(
        pieces.len(),
        |i: int|
            (if i == 0 {
                head
            } else {
                Seq::empty()
            }) + pieces[i] + (if i == pieces.len() - 1 {
                tail
            } else {
                Seq::empty()
            }),
    )
}

/// A text has at least one piece.
pub proof fn lemma_split_newlines_len(text: Seq<char>)
    ensures
        split_newlines(text).len() >= 1,
    decreases text.len(),
{
    if text.len() > 0 {
        lemma_split_newlines_len(text.drop_last());
    }
}

/// The delimiters that electric pairing closes by itself.
pub open spec fn is_opener(c: char) -> bool {
    c == '(' || c == '[' || c == '{' || c == '"' || c == '\''
}

/// The delimiter that closes `c`.
pub open spec fn closer(c: char) -> char {
    if c == '(' {
        ')'
    } else if c == '[' {
        ']'
    } else if c == '{' {
        '}'
    } else {
        c
    }
}

/// The brace depth after one more character.
pub open spec fn brace_step(d: nat, c: char) -> nat {
    if c == '{' {
        d + 1
    } else if c == '}' && d > 0 {
        (d - 1) as nat
    } else {
        d
    }
}

/// The brace depth after the characters of `s`, starting from depth `d`:
/// each `{` adds one, each `}` takes one off unless the depth is zero.
pub open spec fn brace_scan(s: Seq<char>, d: nat) -> nat
    decreases s.len(),
{
    if s.len() == 0 {
        d
    } else {
        brace_step(brace_scan(s.drop_last(), d), s.last())
    }
}

/// The brace depth after the first `n` lines of a document.
pub open spec fn brace_depth(lines: Seq<Seq<char>>, n: int) -> nat
    decreases n,
{
    if n <= 0 {
        0
    } else {
        brace_scan(lines[n - 1], brace_depth(lines, n - 1))
    }
}

/// `lines`, or one empty line when `lines` is empty.
pub open spec fn or_one_line(lines: Seq<Seq<char>>) -> Seq<Seq<char>> {
    if lines.len() > 0 {
        lines
    } else {
        seq![Seq::<char>::empty()]
    }
}

/// The position in the document nearest to `p`: the row at most the last
/// one, then the column at most that line's length.
pub open spec fn clamp_pos(lines: Seq<Seq<char>>, p: Pos) -> Pos {
    let row = if p.row < lines.len() {
        p.row
    } else {
        lines.len() - 1
    };
    Pos {
        col: if p.col <= lines[row].len() {
            p.col
        } else {
            lines[row].len() as int
        },
        row,
    }
}

impl Doc {
    /// The caret is on a line of the document, at most one past its end.
    pub open spec fn valid(self) -> bool {
        has_pos(self.lines, Pos { col: self.col, row: self.row })
    }

    /// The caret's position.
    pub open spec fn caret(self) -> Pos {
        Pos { col: self.col, row: self.row }
    }

    /// The line under the caret.
    pub open spec fn line(self) -> Seq<char> {
        self.lines[self.row]
    }

    /// The same document with the caret's line replaced and the caret at
    /// column `col`.
    pub open spec fn with_line(self, line: Seq<char>, col: int) -> Doc {
        Doc { lines: self.lines.update(self.row, line), col, row: self.row }
    }

    /// The same document with the caret at `p`.
    pub open spec fn at(self, p: Pos) -> Doc {
        Doc { lines: self.lines, col: p.col, row: p.row }
    }

    /// Inserts `c` at the caret and steps over it. With pairing on, an
    /// opening delimiter brings its closer, and the caret stays between.
    pub open spec fn insert_char(self, c: char, pair: bool) -> Doc {
        let ins = if pair && is_opener(c) {
            seq![c, closer(c)]
        } else {
            seq![c]
        };
        self.with_line(splice(self.line(), self.col, 0, ins), self.col + 1)
    }

    /// How many characters a backspace at a column above zero removes: two
    /// when pairing is on and the caret sits inside an empty pair.
    pub open spec fn backspace_width(self, pair: bool) -> int {
        let k = self.col - 1;
        if pair && k + 1 < self.line().len() && is_opener(self.line()[k]) && self.line()[k + 1]
            == closer(self.line()[k]) {
            2
        } else {
            1
        }
    }

    /// Removes the character before the caret; at column zero, joins the
    /// line onto the previous one; at the start of the document, nothing.
    pub open spec fn backspace(self, pair: bool) -> Doc {
        if self.col > 0 {
            self.with_line(
                splice(self.line(), self.col - 1, self.backspace_width(pair), Seq::empty()),
                self.col - 1,
            )
        } else if self.row > 0 {
            let prev = self.lines[self.row - 1];
            Doc {
                lines: self.lines.update(self.row - 1, prev + self.line()).remove(self.row),
                col: prev.len() as int,
                row: self.row - 1,
            }
        } else {
            self
        }
    }

    /// Removes the character under the caret; on an empty line that is not
    /// the only one, removes the line.
    pub open spec fn delete_at_cursor(self) -> Doc {
        if self.line().len() > 0 {
            if self.col < self.line().len() {
                self.with_line(splice(self.line(), self.col, 1, Seq::empty()), self.col)
            } else {
                self
            }
        } else if self.lines.len() > 1 {
            Doc {
                lines: self.lines.remove(self.row),
                col: 0,
                row: if self.row + 1 < self.lines.len() {
                    self.row
                } else {
                    self.row - 1
                },
            }
        } else {
            self
        }
    }

    /// The character that `delete_at_cursor` removes, if it removes one.
    pub open spec fn deleted_char(self) -> Option<char> {
        if self.col < self.line().len() {
            Some(self.line()[self.col])
        } else {
            None
        }
    }

    /// Breaks the line at the caret: what follows the caret becomes a new
    /// line below, and the caret goes to its start.
    pub open spec fn split_line_at_cursor(self) -> Doc {
        let head = self.line().subrange(0, self.col);
        let tail = self.line().subrange(self.col, self.line().len() as int);
        Doc {
            lines: self.lines.update(self.row, head).insert(self.row + 1, tail),
            col: 0,
            row: self.row + 1,
        }
    }

    /// Appends the next line, without its leading spaces, to the caret's
    /// line. One space goes between when the caret's line ends in a
    /// character other than a space and something is appended.
    pub open spec fn join_next_line(self) -> Doc {
        if self.row + 1 < self.lines.len() {
            let cur = self.line();
            let next = self.lines[self.row + 1];
            let rest = next.subrange(skip_class(next, CharClass::Space, 0), next.len() as int);
            let sep = if cur.len() > 0 && cur.last() != ' ' && rest.len() > 0 {
                seq![' ']
            } else {
                Seq::empty()
            };
            Doc {
                lines: self.lines.update(self.row, cur + sep + rest).remove(self.row + 1),
                col: self.col,
                row: self.row,
            }
        } else {
            self
        }
    }

    /// Opens a line above or below the caret's line, indented by as many
    /// spaces as the caret's line starts with, and puts the caret at its end.
    pub open spec fn open_line(self, above: bool) -> Doc {
        let n = skip_class(self.line(), CharClass::Space, 0);
        let at = if above {
            self.row
        } else {
            self.row + 1
        };
        Doc { lines: self.lines.insert(at, spaces(n as nat)), col: n, row: at }
    }

    /// The depth to which the caret's line is indented: the brace depth
    /// after this line, less one when the line starts with `}`.
    pub open spec fn indent_depth(self) -> nat {
        let d = brace_depth(self.lines, self.row + 1);
        let first = skip_class(self.line(), CharClass::Whitespace, 0);
        if first < self.line().len() && self.line()[first] == '}' && d > 0 {
            (d - 1) as nat
        } else {
            d
        }
    }

    /// Replaces the leading whitespace of the caret's line by
    /// `indent_depth() * width` spaces and puts the caret after them.
    pub open spec fn indent_current_line(self, width: nat) -> Doc {
        let first = skip_class(self.line(), CharClass::Whitespace, 0);
        let pad = self.indent_depth() * width;
        self.with_line(
            spaces(pad) + self.line().subrange(first, self.line().len() as int),
            pad as int,
        )
    }

    /// Removes the text from the caret to the end of the line. At the end of
    /// a line that is not the last, removes the whole line instead and keeps
    /// the caret's column as far as the next line reaches.
    pub open spec fn kill_line(self) -> Doc {
        if self.col < self.line().len() {
            self.with_line(self.line().subrange(0, self.col), self.col)
        } else if self.row + 1 < self.lines.len() {
            let next = self.lines[self.row + 1];
            Doc {
                lines: self.lines.remove(self.row),
                col: if self.col <= next.len() {
                    self.col
                } else {
                    next.len() as int
                },
                row: self.row,
            }
        } else {
            self
        }
    }

    /// Whether `kill_line` removes anything.
    pub open spec fn kills(self) -> bool {
        self.col < self.line().len() || self.row + 1 < self.lines.len()
    }

    /// Whether `kill_line` removes the whole line.
    pub open spec fn kills_whole_line(self) -> bool {
        self.col >= self.line().len() && self.row + 1 < self.lines.len()
    }

    /// The text that `kill_line` removes: the rest of the line after the
    /// caret, or the whole line.
    pub open spec fn killed_text(self) -> Seq<char> {
        if self.col < self.line().len() {
            self.line().subrange(self.col, self.line().len() as int)
        } else {
            self.line()
        }
    }

    /// One column left, unless at column zero.
    pub open spec fn move_left(self) -> Doc {
        if self.col > 0 {
            Doc { col: self.col - 1, ..self }
        } else {
            self
        }
    }

    /// One column right, at most to just past the line's last character.
    pub open spec fn move_right(self) -> Doc {
        if self.col < self.line().len() {
            Doc { col: self.col + 1, ..self }
        } else {
            self
        }
    }

    /// One column right, at most onto the line's last character.
    pub open spec fn move_right_within(self) -> Doc {
        if self.col + 1 < self.line().len() {
            Doc { col: self.col + 1, ..self }
        } else {
            self
        }
    }

    /// To row `row`, keeping the column as far as that line reaches.
    pub open spec fn to_row(self, row: int) -> Doc {
        Doc {
            lines: self.lines,
            col: if self.col <= self.lines[row].len() {
                self.col
            } else {
                self.lines[row].len() as int
            },
            row,
        }
    }

    /// One row up, unless on the first line.
    pub open spec fn move_up(self) -> Doc {
        if self.row > 0 {
            self.to_row(self.row - 1)
        } else {
            self
        }
    }

    /// One row down, unless on the last line.
    pub open spec fn move_down(self) -> Doc {
        if self.row + 1 < self.lines.len() {
            self.to_row(self.row + 1)
        } else {
            self
        }
    }

    /// To the first character that is neither space nor tab; to column zero
    /// when the line has none.
    pub open spec fn back_to_indentation(self) -> Doc {
        let i = skip_class(self.line(), CharClass::Blank, 0);
        Doc {
            col: if i < self.line().len() {
                i
            } else {
                0
            },
            ..self
        }
    }

    /// The column of the first character that is not whitespace, or zero.
    pub open spec fn text_start(self) -> int {
        let i = skip_class(self.line(), CharClass::Whitespace, 0);
        if i < self.line().len() {
            i
        } else {
            0
        }
    }

    /// The column just after the last character that is not whitespace, or
    /// the line's length when it has none.
    pub open spec fn text_end(self) -> int {
        let j = skip_class_back(self.line(), CharClass::Whitespace, self.line().len() as int);
        if j > 0 {
            j
        } else {
            self.line().len() as int
        }
    }

    /// To the start of the line's text; from there, to column zero.
    pub open spec fn mwim_beginning(self) -> Doc {
        Doc {
            col: if self.col == self.text_start() {
                0
            } else {
                self.text_start()
            },
            ..self
        }
    }

    /// To the end of the line's text; from there, to the end of the line.
    pub open spec fn mwim_end(self) -> Doc {
        Doc {
            col: if self.col == self.text_end() {
                self.line().len() as int
            } else {
                self.text_end()
            },
            ..self
        }
    }

    /// To the start of line number `n`, counted from one; nowhere when the
    /// document has no such line.
    pub open spec fn goto_line(self, n: int) -> Doc {
        if 1 <= n <= self.lines.len() {
            Doc { lines: self.lines, col: 0, row: n - 1 }
        } else {
            self
        }
    }

    /// The column at which a character-wise paste goes into the caret's
    /// line: the caret's column, or one further for a paste after a
    /// character.
    pub open spec fn paste_column(self, after: bool) -> int {
        if after && self.col < self.line().len() {
            self.col + 1
        } else {
            self.col
        }
    }

    /// Puts the register's text into the document. A line-wise text becomes
    /// a new line above or below the caret's line, with the caret at its
    /// start. A character-wise text is spliced into the caret's line at
    /// `paste_column`, its newlines breaking the line, and the caret goes
    /// to the end of what was put in.
    pub open spec fn paste(self, text: Seq<char>, linewise: bool, after: bool) -> Doc {
        if linewise {
            let at = if after {
                self.row + 1
            } else {
                self.row
            };
            Doc { lines: self.lines.insert(at, text), col: 0, row: at }
        } else {
            let at = self.paste_column(after);
            let pieces = split_newlines(text);
            Doc {
                lines: self.lines.subrange(0, self.row) + spliced_lines(
                    self.line().subrange(0, at),
                    pieces,
                    self.line().subrange(at, self.line().len() as int),
                ) + self.lines.subrange(self.row + 1, self.lines.len() as int),
                col: if pieces.len() == 1 {
                    at + pieces[0].len()
                } else {
                    pieces.last().len() as int
                },
                row: self.row + pieces.len() - 1,
            }
        }
    }

    /// To the end of the last line.
    pub open spec fn to_bottom(self) -> Doc {
        Doc {
            lines: self.lines,
            col: self.lines.last().len() as int,
            row: self.lines.len() - 1,
        }
    }
}

} // verus!
