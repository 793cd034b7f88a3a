//! The editor: the buffer, its window, the history, the register and the
//! selection, kept consistent by every operation.

use vstd::prelude::*;
use crate::buffer::{clamp_pos, has_pos, Buffer, Cursor, Doc};
use crate::document::{join_lines, parse_lines, serialize};
use crate::history::{History, Past};
use crate::keys::Keychords;
use crate::register::{Register, RegisterKind};
use crate::search::{lemma_next_hit, lemma_previous_hit, Hit};
use crate::session::{Mode, Notice, Prompt, Scroll, Selection, Session};
use crate::settings::{choose_value, Settings, SettingsUpdate};
use crate::text::copy_range;
use crate::viewport::{Viewport, Window};

verus! {

/// The state of an editing session.
#[derive(Debug)]
pub struct Editor {
    pub buffer: Buffer,
    pub window: Viewport,
    pub history: History,
    pub register: Register,
    pub mode: Mode,
    pub selection: Option<Selection>,
    /// The text last searched for.
    pub query: Vec<char>,
    /// Whether occurrences of the query are to be highlighted.
    pub highlight: bool,
    /// Whether a search is being typed.
    pub searching: bool,
    pub settings: Settings,
    pub keychords: Keychords,
    /// What the minibuffer asks for, while it is open.
    pub prompt: Option<Prompt>,
    /// What has been typed into the minibuffer.
    pub input: Vec<char>,
    /// The line that the minibuffer was last closed with.
    pub entered: Vec<char>,
    /// Every notice given so far, the latest last.
    pub notices: Vec<Notice>,
}

impl View for Editor {
    type V = Session;

    open spec fn view(&self) -> Session {
        Session {
            doc: self.buffer@,
            window: self.window@,
            past: self.history@,
            register: self.register.text@,
            register_kind: self.register.kind,
            mode: self.mode,
            selection: match self.selection {
                Some(s) => Some(s@),
                None => None,
            },
            query: self.query@,
            highlight: self.highlight,
            searching: self.searching,
            settings: self.settings,
            keychords: self.keychords,
            prompt: self.prompt,
            input: self.input@,
            entered: self.entered@,
            notices: self.notices@,
        }
    }
}

impl Session {
    /// A new session: one empty line, the caret at its start, a window of
    /// `height` rows with margins of ten rows, Normal mode, an empty
    /// register, and a history of this one state.
    pub open spec fn fresh(height: int) -> Session {
        let doc = Doc { lines: seq![Seq::<char>::empty()], col: 0, row: 0 };
        Session {
            doc,
            window: Window {
                offset: 0,
                height: if height >= 1 {
                    height
                } else {
                    1
                },
                top_margin: 10,
                bottom_margin: 10,
            },
            past: Past { states: seq![doc], index: 0 },
            register: Seq::empty(),
            register_kind: RegisterKind::Charwise,
            mode: Mode::Normal,
            selection: None,
            query: Seq::empty(),
            highlight: false,
            searching: false,
            settings: Settings::defaults(),
            keychords: Keychords { ctrl_x_pressed: false },
            prompt: None,
            input: Seq::empty(),
            entered: Seq::empty(),
            notices: Seq::empty(),
        }
    }
}

impl Buffer {
    /// The position of the document nearest to `p`; see `clamp_pos`.
    pub fn clamp(&self, p: Cursor) -> (q: Cursor)
        requires
            self.wf(),
        ensures
            q@ == clamp_pos(self@.lines, p@),
            has_pos(self@.lines, q@),
    {
        let row: usize = if p.row < self.lines.len() {
            p.row
        } else {
            self.lines.len() - 1
        };
        let col: usize = if p.col <= self.lines[row].len() {
            p.col
        } else {
            self.lines[row].len()
        };
        Cursor { col, row }
    }
}

impl Editor {
    /// The session's invariants hold; see `Session::valid`.
    pub open spec fn wf(&self) -> bool {
        self@.valid()
    }

    /// A new editor with a window of `height` rows; see `Session::fresh`.
    pub fn new(height: usize) -> (e: Editor)
        ensures
            e@ == Session::fresh(height as int),
            e.wf(),
    {
        let buffer = Buffer::new(Vec::new(), Cursor { col: 0, row: 0 });
        let history = History::new(&buffer);
        Editor {
            buffer,
            window: Viewport::new(height, 10, 10),
            history,
            register: Register::new(),
            mode: Mode::Normal,
            selection: None,
            query: Vec::new(),
            highlight: false,
            searching: false,
            settings: Settings::new(),
            keychords: Keychords::new(),
            prompt: None,
            input: Vec::new(),
            entered: Vec::new(),
            notices: Vec::new(),
        }
    }

    /// Whether the session's invariants hold.
    pub fn is_valid(&self) -> (ok: bool)
        ensures
            ok == self.wf(),
    {
        if !self.buffer.is_valid() || self.window.height < 1 || self.history.states.len() == 0
            || self.history.index >= self.history.states.len() {
            return false;
        }
        let visual = match self.mode {
            Mode::Visual => true,
            _ => false,
        };
        if visual != self.selection.is_some() {
            return false;
        }
        let row = self.buffer.cursor.row;
        let count = self.buffer.lines.len();
        let height = self.window.height;
        let offset = self.window.offset;
        let most: usize = if count > height {
            count - height
        } else {
            0
        };
        if offset > most || offset > row || row - offset >= height {
            return false;
        }
        let mut i: usize = 0;
        while i < self.history.states.len()
            invariant
                i <= self.history.states.len(),
                forall|j: int| 0 <= j < i ==> (#[trigger] self.history@.states[j]).valid(),
            decreases self.history.states.len() - i,
        {
            let s = &self.history.states[i];
            if !(s.cursor.row < s.lines.len() && s.cursor.col <= s.lines[s.cursor.row].len()) {
                assert(!self.history@.states[i as int].valid());
                return false;
            }
            assert(self.history@.states[i as int].valid());
            i += 1;
        }
        true
    }

    /// Goes to `mode`; see `Session::in_mode`.
    pub fn set_mode(&mut self, mode: Mode)
        requires
            old(self).wf(),
        ensures
            final(self)@ == old(self)@.in_mode(mode),
            final(self).wf(),
    {
        self.mode = mode;
        self.selection = match mode {
            Mode::Visual => Some(Selection { anchor: self.buffer.cursor, active: self.buffer.cursor }),
            _ => None,
        };
    }

    /// Adds a notice for the user.
    pub fn message(&mut self, notice: Notice)
        requires
            old(self).wf(),
        ensures
            final(self)@ == old(self)@.noting(notice),
            final(self).wf(),
    {
        self.notices.push(notice);
    }

    /// Records the live state in the history; see `Past::snapshot`.
    pub fn snapshot(&mut self)
        requires
            old(self).wf(),
        ensures
            final(self)@ == old(self)@.snapshot(),
            final(self).wf(),
    {
        self.history.snapshot(&self.buffer);
    }

    /// Goes back one snapshot; see `Session::undo`.
    pub fn undo(&mut self)
        requires
            old(self).wf(),
        ensures
            final(self)@ == old(self)@.undo(),
            final(self).wf(),
    {
        if self.history.undo(&mut self.buffer) {
            self.window.recenter(self.buffer.cursor.row, self.buffer.lines.len());
            self.notices.push(Notice::History { len: self.history.len(), index: self.history.index });
        } else {
            self.notices.push(Notice::NoMoreUndo);
        }
    }

    /// Goes forward one snapshot; see `Session::redo`.
    pub fn redo(&mut self)
        requires
            old(self).wf(),
        ensures
            final(self)@ == old(self)@.redo(),
            final(self).wf(),
    {
        if self.history.redo(&mut self.buffer) {
            self.window.recenter(self.buffer.cursor.row, self.buffer.lines.len());
            self.notices.push(Notice::History { len: self.history.len(), index: self.history.index });
        } else {
            self.notices.push(Notice::NoMoreRedo);
        }
    }

    /// Breaks the line at the caret; see `Session::enter`.
    pub fn enter(&mut self)
        requires
            old(self).wf(),
        ensures
            final(self)@ == old(self)@.enter(),
            final(self).wf(),
    {
        self.buffer.split_line_at_cursor();
        self.window.follow_down(self.buffer.cursor.row, self.buffer.lines.len());
    }

    /// Inserts `c` at the caret; see `Session::insert_char`.
    pub fn insert_char(&mut self, c: char)
        requires
            old(self).wf(),
        ensures
            final(self)@ == old(self)@.insert_char(c),
            final(self).wf(),
    {
        self.buffer.insert_char(c, self.settings.electric_pair_mode);
    }

    /// Removes what is before the caret; see `Session::backspace`.
    pub fn backspace(&mut self)
        requires
            old(self).wf(),
        ensures
            final(self)@ == old(self)@.backspace(),
            final(self).wf(),
    {
        self.buffer.backspace(self.settings.electric_pair_mode);
        self.window.scroll_enough(self.buffer.cursor.row, self.buffer.lines.len());
    }

    /// Removes what is under the caret; see `Session::delete_char`.
    pub fn delete_char(&mut self)
        requires
            old(self).wf(),
        ensures
            final(self)@ == old(self)@.delete_char(),
            final(self).wf(),
    {
        let empty = self.buffer.line_len() == 0 && self.buffer.line_count() > 1;
        let removed = self.buffer.delete_at_cursor();
        self.window.scroll_enough(self.buffer.cursor.row, self.buffer.lines.len());
        match removed {
            Some(c) => {
                let mut text: Vec<char> = Vec::new();
                text.push(c);
                assert(text@ =~= seq![c]);
                self.register.store(text, RegisterKind::Charwise);
            },
            None => {
                if empty {
                    self.register.store(Vec::new(), RegisterKind::Charwise);
                }
            },
        }
    }

    /// One column left.
    pub fn left(&mut self)
        requires
            old(self).wf(),
        ensures
            final(self)@ == old(self)@.moved(old(self)@.doc.move_left()),
            final(self).wf(),
    {
        self.buffer.move_left();
    }

    /// One column right.
    pub fn right(&mut self)
        requires
            old(self).wf(),
        ensures
            final(self)@ == old(self)@.moved(old(self)@.doc.move_right()),
            final(self).wf(),
    {
        self.buffer.move_right();
    }

    /// To the first character that is neither space nor tab.
    pub fn back_to_indentation(&mut self)
        requires
            old(self).wf(),
        ensures
            final(self)@ == old(self)@.moved(old(self)@.doc.back_to_indentation()),
            final(self).wf(),
    {
        self.buffer.back_to_indentation();
    }

    /// One row up; see `Session::up`.
    pub fn up(&mut self)
        requires
            old(self).wf(),
        ensures
            final(self)@ == old(self)@.up(),
            final(self).wf(),
    {
        if self.buffer.cursor.row > 0 {
            self.buffer.move_up();
            self.window.follow_up(self.buffer.cursor.row, self.buffer.lines.len());
        }
    }

    /// One row down; see `Session::down`.
    pub fn down(&mut self)
        requires
            old(self).wf(),
        ensures
            final(self)@ == old(self)@.down(),
            final(self).wf(),
    {
        let count = self.buffer.lines.len();
        if self.buffer.cursor.row + 1 < count {
            self.buffer.move_down();
            self.window.follow_down(self.buffer.cursor.row, count);
        }
    }

    /// Indents the caret's line; see `Session::indent`.
    pub fn indent(&mut self)
        requires
            old(self).wf(),
        ensures
            final(self)@ == old(self)@.indent(),
            final(self).wf(),
    {
        self.buffer.indent_current_line(self.settings.indentation);
    }

    /// Brings the caret into view; see `Session::adjust_view_to_cursor`.
    pub fn adjust_view_to_cursor(&mut self, how: Scroll)
        requires
            old(self).wf(),
        ensures
            final(self)@ == old(self)@.adjust_view_to_cursor(how),
            final(self).wf(),
    {
        let row = self.buffer.cursor.row;
        let count = self.buffer.lines.len();
        match how {
            Scroll::Center => self.window.recenter(row, count),
            Scroll::Enough => self.window.scroll_enough(row, count),
            Scroll::Margins => self.window.scroll_with_margins(row, count),
        }
    }

    /// To the start of line `n`, counted from one; see
    /// `Session::goto_line`.
    pub fn goto_line(&mut self, n: usize)
        requires
            old(self).wf(),
        ensures
            final(self)@ == old(self)@.goto_line(n as int),
            final(self).wf(),
    {
        if self.buffer.goto_line(n) {
            self.window.recenter(self.buffer.cursor.row, self.buffer.lines.len());
        } else {
            self.notices.push(Notice::NoSuchLine(n));
        }
    }

    /// Scrolls after a search, or gives notice of its failure.
    fn after_search(&mut self, outcome: Option<bool>)
        requires
            old(self).buffer.wf(),
            old(self).window.wf(),
            old(self)@.past.valid(),
            old(self)@.mode == Mode::Visual <==> old(self)@.selection is Some,
            outcome is None ==> old(self).wf(),
        ensures
            final(self).wf(),
            outcome is Some ==> final(self)@ == old(self)@.adjust_view_to_cursor(
                if outcome->0 {
                    Scroll::Center
                } else {
                    Scroll::Margins
                },
            ),
            outcome is None ==> final(self)@ == old(self)@.noting(Notice::NotFound),
    {
        let row = self.buffer.cursor.row;
        let count = self.buffer.lines.len();
        match outcome {
            Some(wrapped) => {
                if wrapped {
                    self.window.recenter(row, count);
                } else {
                    self.window.scroll_with_margins(row, count);
                }
            },
            None => {
                self.notices.push(Notice::NotFound);
            },
        }
    }

    /// To the next occurrence of the query; see `Session::search_next`.
    pub fn search_next(&mut self)
        requires
            old(self).wf(),
        ensures
            final(self)@ == old(self)@.search_next(),
            final(self).wf(),
    {
        let outcome = self.buffer.search_next(&self.query);
        proof {
            lemma_next_hit(
                old(self)@.doc.lines,
                self.query@,
                old(self)@.doc.caret(),
                Hit { at: self.buffer@.caret(), outcome },
            );
        }
        self.after_search(outcome);
    }

    /// To the previous occurrence of the query; see
    /// `Session::search_previous`.
    pub fn search_previous(&mut self)
        requires
            old(self).wf(),
        ensures
            final(self)@ == old(self)@.search_previous(),
            final(self).wf(),
    {
        let outcome = self.buffer.search_previous(&self.query);
        proof {
            lemma_previous_hit(
                old(self)@.doc.lines,
                self.query@,
                old(self)@.doc.caret(),
                Hit { at: self.buffer@.caret(), outcome },
            );
        }
        self.after_search(outcome);
    }

    /// The text of the selection; see `Session::selected_text`.
    pub fn extract_selected_text(&self) -> (text: Vec<char>)
        requires
            self.wf(),
        ensures
            text@ == self@.selected_text(),
    {
        match self.selection {
            Some(sel) => {
                let a = self.buffer.clamp(sel.anchor);
                let b = self.buffer.clamp(sel.active);
                self.buffer.selected_text(a, b)
            },
            None => Vec::new(),
        }
    }

    /// Cuts the selection; see `Session::delete_selection`.
    pub fn delete_selection(&mut self)
        requires
            old(self).wf(),
        ensures
            final(self)@ == old(self)@.delete_selection(),
            final(self).wf(),
    {
        match self.selection {
            Some(sel) => {
                let a = self.buffer.clamp(sel.anchor);
                let b = self.buffer.clamp(sel.active);
                let text = self.buffer.delete_selection(a, b);
                self.window.scroll_enough(self.buffer.cursor.row, self.buffer.lines.len());
                self.register.store(text, RegisterKind::Charwise);
                self.mode = Mode::Normal;
                self.selection = None;
            },
            None => {},
        }
    }

    /// Copies the selection; see `Session::copy_selection`.
    pub fn copy_selection(&mut self)
        requires
            old(self).wf(),
        ensures
            final(self)@ == old(self)@.copy_selection(),
            final(self).wf(),
    {
        match self.selection {
            Some(sel) => {
                let a = self.buffer.clamp(sel.anchor);
                let b = self.buffer.clamp(sel.active);
                let text = self.buffer.copy_selection(a, b);
                self.window.scroll_enough(self.buffer.cursor.row, self.buffer.lines.len());
                self.register.store(text, RegisterKind::Charwise);
                self.mode = Mode::Normal;
                self.selection = None;
            },
            None => {},
        }
    }

    /// Joins the next line onto the caret's line; see `Session::join`.
    pub fn join(&mut self)
        requires
            old(self).wf(),
        ensures
            final(self)@ == old(self)@.join(),
            final(self).wf(),
    {
        self.buffer.join_next_line();
        self.window.scroll_enough(self.buffer.cursor.row, self.buffer.lines.len());
    }

    /// To the start of the line's text, or from there to column zero; see
    /// `Session::mwim_beginning`.
    pub fn mwim_beginning(&mut self)
        requires
            old(self).wf(),
        ensures
            final(self)@ == old(self)@.mwim_beginning(),
            final(self).wf(),
    {
        self.buffer.mwim_beginning();
        self.window.recenter(self.buffer.cursor.row, self.buffer.lines.len());
    }

    /// To the end of the line's text, or from there to the end of the
    /// line; see `Session::mwim_end`.
    pub fn mwim_end(&mut self)
        requires
            old(self).wf(),
        ensures
            final(self)@ == old(self)@.mwim_end(),
            final(self).wf(),
    {
        self.buffer.mwim_end();
        self.window.recenter(self.buffer.cursor.row, self.buffer.lines.len());
    }

    /// Opens a line below the caret's line; see `Session::open_line`.
    pub fn open_below(&mut self)
        requires
            old(self).wf(),
        ensures
            final(self)@ == old(self)@.open_line(false),
            final(self).wf(),
    {
        self.buffer.open_line(false);
        self.window.scroll_enough(self.buffer.cursor.row, self.buffer.lines.len());
        self.mode = Mode::Insert;
        self.selection = None;
    }

    /// Opens a line above the caret's line; see `Session::open_line`.
    pub fn open_above(&mut self)
        requires
            old(self).wf(),
        ensures
            final(self)@ == old(self)@.open_line(true),
            final(self).wf(),
    {
        self.buffer.open_line(true);
        self.window.scroll_enough(self.buffer.cursor.row, self.buffer.lines.len());
        self.mode = Mode::Insert;
        self.selection = None;
    }

    /// Kills the rest of the line, or the line; see `Session::kill_line`.
    pub fn kill_line(&mut self)
        requires
            old(self).wf(),
        ensures
            final(self)@ == old(self)@.kill_line(),
            final(self).wf(),
    {
        let killed = self.buffer.kill_line();
        self.window.scroll_enough(self.buffer.cursor.row, self.buffer.lines.len());
        match killed {
            Some(r) => {
                self.register = r;
            },
            None => {},
        }
    }

    /// Copies the caret's line into the register; see
    /// `Session::yank_line`.
    pub fn yank_line(&mut self)
        requires
            old(self).wf(),
        ensures
            final(self)@ == old(self)@.yank_line(),
            final(self).wf(),
    {
        let row = self.buffer.cursor.row;
        let line = copy_range(&self.buffer.lines[row], 0, self.buffer.lines[row].len());
        assert(line@ =~= self@.doc.line());
        self.register.store(line, RegisterKind::Linewise);
        self.notices.push(Notice::LineCopied);
    }

    /// Pastes the register; see `Session::paste`.
    pub fn paste(&mut self, after: bool)
        requires
            old(self).wf(),
        ensures
            final(self)@ == old(self)@.paste(after),
            final(self).wf(),
    {
        self.buffer.paste(&self.register, after);
        self.window.follow_down(self.buffer.cursor.row, self.buffer.lines.len());
    }

    /// Opens the document that `text` holds; see `Session::open`.
    pub fn open(&mut self, text: &Vec<char>)
        requires
            old(self).wf(),
        ensures
            final(self)@ == old(self)@.open(text@),
            final(self).wf(),
    {
        self.buffer = Buffer { lines: parse_lines(text), cursor: Cursor { col: 0, row: 0 } };
        self.window.scroll_with_margins(0, self.buffer.lines.len());
        self.history = History::new(&self.buffer);
        self.mode = Mode::Normal;
        self.selection = None;
    }

    /// The text that saving writes: the lines joined by newlines.
    pub fn buffer_save(&self) -> (text: Vec<char>)
        ensures
            text@ == join_lines(self@.doc.lines),
    {
        serialize(&self.buffer.lines)
    }

    /// The text that evaluating the buffer runs: the lines joined by
    /// newlines.
    pub fn eval_buffer(&self) -> (code: Vec<char>)
        ensures
            code@ == join_lines(self@.doc.lines),
    {
        serialize(&self.buffer.lines)
    }

    /// The text that evaluating the caret's line runs.
    pub fn eval_line(&self) -> (code: Vec<char>)
        requires
            self.wf(),
        ensures
            code@ == self@.doc.line(),
    {
        let row = self.buffer.cursor.row;
        let line = copy_range(&self.buffer.lines[row], 0, self.buffer.lines[row].len());
        assert(line@ =~= self@.doc.line());
        line
    }

    /// The text that evaluating the selection runs, or the notice that
    /// nothing is selected.
    pub fn eval_region(&self) -> (code: Result<Vec<char>, Notice>)
        requires
            self.wf(),
        ensures
            self@.selected_text().len() > 0 ==> code is Ok && code->Ok_0@ == self@.selected_text(),
            self@.selected_text().len() == 0 ==> code == Err::<Vec<char>, Notice>(
                Notice::NoTextSelected,
            ),
    {
        let text = self.extract_selected_text();
        if text.len() > 0 {
            Ok(text)
        } else {
            Err(Notice::NoTextSelected)
        }
    }

    /// Changes the number of visible rows; see `Session::resize`.
    pub fn resize(&mut self, height: usize)
        requires
            old(self).wf(),
        ensures
            final(self)@ == old(self)@.resize(height as int),
            final(self).wf(),
    {
        self.window.resize(height, self.buffer.cursor.row, self.buffer.lines.len());
    }

    /// Takes over what a script left behind; see
    /// `Session::apply_settings`.
    pub fn apply_settings(&mut self, u: &SettingsUpdate)
        requires
            old(self).wf(),
        ensures
            final(self)@ == old(self)@.apply_settings(*u),
            final(self).wf(),
    {
        self.settings.apply(u);
        self.window.top_margin = choose_value(u.top_scroll_margin, self.window.top_margin);
        self.window.bottom_margin = choose_value(u.bottom_scroll_margin, self.window.bottom_margin);
    }
}

} // verus!
