//! The model of an editing session, and each operation of the editor as a
//! function on that model.

use vstd::prelude::*;
use crate::buffer::{clamp_pos, Cursor, Doc, Pos};
use crate::document::parse_document;
use crate::history::Past;
use crate::keys::Keychords;
use crate::register::RegisterKind;
use crate::search::{next_hit, previous_hit};
use crate::settings::{pick, Settings, SettingsUpdate};
use crate::viewport::Window;

verus! {

/// The editing modes.
#[derive(Clone, Copy, Debug, PartialEq, Eq, Structural)]
pub enum Mode {
    Normal,
    Insert,
    Dired,
    Visual,
}

/// What the editor tells the user after an operation.
#[derive(Clone, Copy, Debug, PartialEq, Eq, Structural)]
pub enum Notice {
    /// Undo was asked for at the oldest snapshot.
    NoMoreUndo,
    /// Redo was asked for at the newest snapshot.
    NoMoreRedo,
    /// The history after an undo or redo: its length and current index.
    History { len: usize, index: usize },
    /// The search query occurs nowhere.
    NotFound,
    /// The document has no line of this number.
    NoSuchLine(usize),
    /// The caret's line went into the register.
    LineCopied,
    /// The command line held neither a command nor a line number.
    InvalidCommand,
    /// An evaluation of the selection was asked for with nothing selected.
    NoTextSelected,
}

/// What the minibuffer asks for.
#[derive(Clone, Copy, Debug, PartialEq, Eq, Structural)]
pub enum Prompt {
    SwitchTheme,
    Eval,
    Shell,
    FindFile,
    Command,
    Search,
    /// The search prompt opened from Insert mode.
    InsertSearch,
    CreateDirectory,
    Delete,
    Rename,
    Touch,
    TouchOpen,
}

/// How to bring the caret into view.
#[derive(Clone, Copy, Debug, PartialEq, Eq, Structural)]
pub enum Scroll {
    /// The caret's row in the middle of the window.
    Center,
    /// The least movement that shows the caret.
    Enough,
    /// The caret's row kept inside the margins.
    Margins,
}

/// The shape in which the terminal draws the caret.
#[derive(Clone, Copy, Debug, PartialEq, Eq, Structural)]
pub enum CursorShape {
    Block,
    Line,
}

/// The shape of the caret in a mode: a line in Insert mode when the
/// settings ask for it, a block otherwise.
pub open spec fn shape_in(mode: Mode, insert_line_cursor: bool) -> CursorShape {
    if mode == Mode::Insert && insert_line_cursor {
        CursorShape::Line
    } else {
        CursorShape::Block
    }
}

/// The shape of the caret in a mode; see `shape_in`.
pub fn cursor_shape(mode: Mode, insert_line_cursor: bool) -> (shape: CursorShape)
    ensures
        shape == shape_in(mode, insert_line_cursor),
{
    match mode {
        Mode::Insert => if insert_line_cursor {
            CursorShape::Line
        } else {
            CursorShape::Block
        },
        _ => CursorShape::Block,
    }
}

/// A visual selection: where it was started, and where the caret has gone
/// since.
#[derive(Clone, Copy, Debug, PartialEq, Eq, Structural)]
pub struct Selection {
    pub anchor: Cursor,
    pub active: Cursor,
}

/// The model of a selection.
pub struct Span {
    pub anchor: Pos,
    pub active: Pos,
}

impl View for Selection {
    type V = Span;

    open spec fn view(&self) -> Span {
        Span { anchor: self.anchor@, active: self.active@ }
    }
}

/// The model of an editing session.
pub struct Session {
    pub doc: Doc,
    pub window: Window,
    pub past: Past,
    pub register: Seq<char>,
    pub register_kind: RegisterKind,
    pub mode: Mode,
    pub selection: Option<Span>,
    pub query: Seq<char>,
    pub highlight: bool,
    pub searching: bool,
    pub settings: Settings,
    pub keychords: Keychords,
    pub prompt: Option<Prompt>,
    pub input: Seq<char>,
    pub entered: Seq<char>,
    pub notices: Seq<Notice>,
}

impl Span {
    /// The selection's ends, each moved to the nearest position of the
    /// document.
    pub open spec fn within(self, lines: Seq<Seq<char>>) -> Span {
        Span { anchor: clamp_pos(lines, self.anchor), active: clamp_pos(lines, self.active) }
    }
}

impl Session {
    /// The number of lines of the document.
    pub open spec fn rows(self) -> int {
        self.doc.lines.len() as int
    }

    /// The invariants of a session: the caret lies in the document, the
    /// window is in range and shows the caret's row, the history is valid,
    /// and there is a selection in Visual mode and in no other.
    pub open spec fn valid(self) -> bool {
        &&& self.doc.valid()
        &&& self.window.height >= 1
        &&& self.window.contains(self.doc.row, self.rows())
        &&& self.past.valid()
        &&& (self.mode == Mode::Visual <==> self.selection is Some)
    }

    /// The session with another document, scrolled no further than needed
    /// to show its caret.
    pub open spec fn with_doc(self, doc: Doc) -> Session {
        Session { doc, window: self.window.enough(doc.row, doc.lines.len() as int), ..self }
    }

    /// The session with one more notice.
    pub open spec fn noting(self, notice: Notice) -> Session {
        Session { notices: self.notices.push(notice), ..self }
    }

    /// The session in another mode. Entering Visual mode starts a
    /// selection at the caret; every other mode has none.
    pub open spec fn in_mode(self, mode: Mode) -> Session {
        Session {
            mode,
            selection: if mode == Mode::Visual {
                Some(Span { anchor: self.doc.caret(), active: self.doc.caret() })
            } else {
                None
            },
            ..self
        }
    }

    /// The session with the register overwritten.
    pub open spec fn storing(self, text: Seq<char>, kind: RegisterKind) -> Session {
        Session { register: text, register_kind: kind, ..self }
    }

    /// Records the live state in the history.
    pub open spec fn snapshot(self) -> Session {
        Session { past: self.past.snapshot(self.doc), ..self }
    }

    /// The notice that shows the history.
    pub open spec fn history_notice(self) -> Notice {
        Notice::History { len: self.past.states.len() as usize, index: self.past.index as usize }
    }

    /// The session after a move in the history to `past`: the current
    /// snapshot is live again, in the middle of the window.
    pub open spec fn restored(self, past: Past) -> Session {
        let s = Session {
            past,
            doc: past.current(),
            window: self.window.recentered(past.current().row, past.current().lines.len() as int),
            ..self
        };
        s.noting(s.history_notice())
    }

    /// One snapshot back, or a notice at the oldest snapshot.
    pub open spec fn undo(self) -> Session {
        if self.past.can_undo() {
            self.restored(self.past.undo())
        } else {
            self.noting(Notice::NoMoreUndo)
        }
    }

    /// One snapshot forward, or a notice at the newest snapshot.
    pub open spec fn redo(self) -> Session {
        if self.past.can_redo() {
            self.restored(self.past.redo())
        } else {
            self.noting(Notice::NoMoreRedo)
        }
    }

    /// Breaks the line at the caret and follows the caret down.
    pub open spec fn enter(self) -> Session {
        let doc = self.doc.split_line_at_cursor();
        Session { doc, window: self.window.followed_down(doc.row, doc.lines.len() as int), ..self }
    }

    /// Inserts a character at the caret.
    pub open spec fn insert_char(self, c: char) -> Session {
        Session { doc: self.doc.insert_char(c, self.settings.electric_pair_mode), ..self }
    }

    /// Removes what is before the caret.
    pub open spec fn backspace(self) -> Session {
        self.with_doc(self.doc.backspace(self.settings.electric_pair_mode))
    }

    /// Removes what is under the caret. A removed character goes into the
    /// register; a removed line empties it.
    pub open spec fn delete_char(self) -> Session {
        let s = self.with_doc(self.doc.delete_at_cursor());
        match self.doc.deleted_char() {
            Some(c) => s.storing(seq![c], RegisterKind::Charwise),
            None => if self.doc.line().len() == 0 && self.rows() > 1 {
                s.storing(Seq::empty(), RegisterKind::Charwise)
            } else {
                s
            },
        }
    }

    /// The session with the caret moved within its line.
    pub open spec fn moved(self, doc: Doc) -> Session {
        Session { doc, ..self }
    }

    /// One row up, the window following.
    pub open spec fn up(self) -> Session {
        if self.doc.row > 0 {
            let doc = self.doc.move_up();
            Session { doc, window: self.window.followed_up(doc.row, self.rows()), ..self }
        } else {
            self
        }
    }

    /// One row down, the window following.
    pub open spec fn down(self) -> Session {
        if self.doc.row + 1 < self.rows() {
            let doc = self.doc.move_down();
            Session { doc, window: self.window.followed_down(doc.row, self.rows()), ..self }
        } else {
            self
        }
    }

    /// Indents the caret's line by the configured width.
    pub open spec fn indent(self) -> Session {
        Session { doc: self.doc.indent_current_line(self.settings.indentation as nat), ..self }
    }

    /// Brings the caret into view.
    pub open spec fn adjust_view_to_cursor(self, how: Scroll) -> Session {
        Session {
            window: match how {
                Scroll::Center => self.window.recentered(self.doc.row, self.rows()),
                Scroll::Enough => self.window.enough(self.doc.row, self.rows()),
                Scroll::Margins => self.window.with_margins(self.doc.row, self.rows()),
            },
            ..self
        }
    }

    /// To the start of line `n`, counted from one, in the middle of the
    /// window; a notice when there is no such line.
    pub open spec fn goto_line(self, n: int) -> Session {
        if 1 <= n <= self.rows() {
            self.moved(self.doc.goto_line(n)).adjust_view_to_cursor(Scroll::Center)
        } else {
            self.noting(Notice::NoSuchLine(n as usize))
        }
    }

    /// The session after a search that ended at `at`: a wrapped search
    /// recenters, an ordinary one keeps the margins, a failed one leaves a
    /// notice.
    pub open spec fn found(self, at: Pos, outcome: Option<bool>) -> Session {
        match outcome {
            Some(wrapped) => self.moved(self.doc.at(at)).adjust_view_to_cursor(
                if wrapped {
                    Scroll::Center
                } else {
                    Scroll::Margins
                },
            ),
            None => self.noting(Notice::NotFound),
        }
    }

    /// To the next occurrence of the query.
    pub open spec fn search_next(self) -> Session {
        let hit = next_hit(self.doc.lines, self.query, self.doc.caret());
        self.found(hit.at, hit.outcome)
    }

    /// To the previous occurrence of the query.
    pub open spec fn search_previous(self) -> Session {
        let hit = previous_hit(self.doc.lines, self.query, self.doc.caret());
        self.found(hit.at, hit.outcome)
    }

    /// The text of the selection, or nothing without a selection.
    pub open spec fn selected_text(self) -> Seq<char> {
        match self.selection {
            Some(span) => {
                let s = span.within(self.doc.lines);
                self.doc.selection_text(s.anchor, s.active)
            },
            None => Seq::empty(),
        }
    }

    /// Cuts the selection into the register, character-wise, and goes back
    /// to Normal mode with the caret at the selection's start.
    pub open spec fn delete_selection(self) -> Session {
        match self.selection {
            Some(span) => {
                let s = span.within(self.doc.lines);
                self.with_doc(self.doc.delete_selection(s.anchor, s.active)).storing(
                    self.doc.selection_text(s.anchor, s.active),
                    RegisterKind::Charwise,
                ).in_mode(Mode::Normal)
            },
            None => self,
        }
    }

    /// Copies the selection into the register, character-wise, and goes
    /// back to Normal mode with the caret at the selection's start.
    pub open spec fn copy_selection(self) -> Session {
        match self.selection {
            Some(span) => {
                let s = span.within(self.doc.lines);
                self.with_doc(self.doc.copy_selection(s.anchor, s.active)).storing(
                    self.doc.copied(s.anchor, s.active),
                    RegisterKind::Charwise,
                ).in_mode(Mode::Normal)
            },
            None => self,
        }
    }

    /// Joins the next line onto the caret's line.
    pub open spec fn join(self) -> Session {
        self.with_doc(self.doc.join_next_line())
    }

    /// To the start of the line's text, in the middle of the window.
    pub open spec fn mwim_beginning(self) -> Session {
        self.moved(self.doc.mwim_beginning()).adjust_view_to_cursor(Scroll::Center)
    }

    /// To the end of the line's text, in the middle of the window.
    pub open spec fn mwim_end(self) -> Session {
        self.moved(self.doc.mwim_end()).adjust_view_to_cursor(Scroll::Center)
    }

    /// Opens a line above or below and goes to Insert mode.
    pub open spec fn open_line(self, above: bool) -> Session {
        self.with_doc(self.doc.open_line(above)).in_mode(Mode::Insert)
    }

    /// Kills from the caret to the end of the line, or the whole line at
    /// its end; what was removed goes into the register.
    pub open spec fn kill_line(self) -> Session {
        let s = self.with_doc(self.doc.kill_line());
        if self.doc.kills() {
            s.storing(
                self.doc.killed_text(),
                if self.doc.kills_whole_line() {
                    RegisterKind::Linewise
                } else {
                    RegisterKind::Charwise
                },
            )
        } else {
            s
        }
    }

    /// Copies the caret's line into the register, line-wise.
    pub open spec fn yank_line(self) -> Session {
        self.storing(self.doc.line(), RegisterKind::Linewise).noting(Notice::LineCopied)
    }

    /// Pastes the register before or after the caret, the window following
    /// the caret down.
    pub open spec fn paste(self, after: bool) -> Session {
        let doc = self.doc.paste(
            self.register,
            self.register_kind == RegisterKind::Linewise,
            after,
        );
        Session { doc, window: self.window.followed_down(doc.row, doc.lines.len() as int), ..self }
    }

    /// Replaces the document by the lines of `text`: the caret at the
    /// start, Normal mode, and a history of this one state.
    pub open spec fn open(self, text: Seq<char>) -> Session {
        let doc = Doc { lines: parse_document(text), col: 0, row: 0 };
        Session {
            doc,
            window: self.window.with_margins(0, doc.lines.len() as int),
            past: Past { states: seq![doc], index: 0 },
            ..self
        }.in_mode(Mode::Normal)
    }

    /// The window with another number of rows.
    pub open spec fn resize(self, height: int) -> Session {
        Session { window: self.window.resized(height, self.doc.row, self.rows()), ..self }
    }

    /// Takes over what a script left behind, each setting by itself.
    pub open spec fn apply_settings(self, u: SettingsUpdate) -> Session {
        Session {
            settings: self.settings.updated(u),
            window: Window {
                top_margin: pick(u.top_scroll_margin, self.window.top_margin as usize) as int,
                bottom_margin: pick(u.bottom_scroll_margin, self.window.bottom_margin as usize) as int,
                ..self.window
            },
            ..self
        }
    }
}

} // verus!
