//! The commands that keys are bound to, and how the editor performs them.

use vstd::prelude::*;
use crate::buffer::Doc;
use crate::editor::Editor;
use crate::keys::Keychords;
use crate::session::{Mode, Prompt, Selection, Session, Span};
use crate::settings::Settings;

verus! {

/// One command of the editor.
#[derive(Clone, Copy, Debug, PartialEq, Eq, Structural)]
pub enum Op {
    /// Nothing.
    Idle,
    /// Remember that the chord prefix was pressed.
    ArmChord,
    /// Forget the chord prefix.
    DropChord,
    ToggleFringe,
    ToggleLineNumbers,
    /// Switch the highlighting of search matches on or off.
    Highlight(bool),
    Snapshot,
    Undo,
    Redo,
    /// Insert a character, with pairing where it is switched on.
    Insert(char),
    /// Insert a character and never its closer.
    InsertPlain(char),
    Enter,
    Backspace,
    DeleteChar,
    Join,
    KillLine,
    YankLine,
    /// Paste after the caret (`true`) or before it.
    Paste(bool),
    OpenAbove,
    OpenBelow,
    Indent,
    Left,
    Right,
    /// Right, but never past the last character.
    RightWithin,
    Up,
    Down,
    Home,
    End,
    Top,
    Bottom,
    BackToIndentation,
    MwimBeginning,
    MwimEnd,
    SearchNext,
    SearchPrevious,
    /// Go to a mode.
    Go(Mode),
    /// Open the minibuffer with a prompt.
    Ask(Prompt),
    DeleteSelection,
    CopySelection,
    /// Let the selection's moving end follow the caret.
    Track,
}

impl Session {
    /// The session after opening the minibuffer: its input is empty, and a
    /// search prompt marks a search as being typed.
    pub open spec fn ask(self, prompt: Prompt) -> Session {
        Session {
            prompt: Some(prompt),
            input: Seq::empty(),
            searching: self.searching || prompt == Prompt::Search || prompt
                == Prompt::InsertSearch,
            ..self
        }
    }

    /// The session with the selection's moving end at the caret.
    pub open spec fn track(self) -> Session {
        Session {
            selection: match self.selection {
                Some(s) => Some(Span { anchor: s.anchor, active: self.doc.caret() }),
                None => None,
            },
            ..self
        }
    }

    /// The session with the caret at the start of the document and the
    /// window at its top.
    pub open spec fn top(self) -> Session {
        Session {
            doc: Doc { lines: self.doc.lines, col: 0, row: 0 },
            window: self.window.settled(0, 0, self.rows()),
            ..self
        }
    }

    /// The session with the caret at the end of the document and the
    /// window at its bottom.
    pub open spec fn bottom(self) -> Session {
        Session {
            doc: self.doc.to_bottom(),
            window: self.window.at_bottom(self.rows() - 1, self.rows()),
            ..self
        }
    }

    /// The session with the chord prefix pending or not.
    pub open spec fn chord(self, pending: bool) -> Session {
        Session { keychords: Keychords { ctrl_x_pressed: pending }, ..self }
    }

    /// The session with the fringe switched over.
    pub open spec fn toggle_fringe(self) -> Session {
        Session {
            settings: Settings { show_fringe: !self.settings.show_fringe, ..self.settings },
            ..self
        }
    }

    /// The session with the line numbers switched over.
    pub open spec fn toggle_line_numbers(self) -> Session {
        Session {
            settings: Settings {
                show_line_numbers: !self.settings.show_line_numbers,
                ..self.settings
            },
            ..self
        }
    }

    /// The session with the highlighting of matches on or off.
    pub open spec fn highlighting(self, on: bool) -> Session {
        Session { highlight: on, ..self }
    }

    /// The session after one command.
    pub open spec fn apply(self, op: Op) -> Session {
        match op {
            Op::Idle => self,
            Op::ArmChord => self.chord(true),
            Op::DropChord => self.chord(false),
            Op::ToggleFringe => self.toggle_fringe(),
            Op::ToggleLineNumbers => self.toggle_line_numbers(),
            Op::Highlight(on) => self.highlighting(on),
            Op::Snapshot => self.snapshot(),
            Op::Undo => self.undo(),
            Op::Redo => self.redo(),
            Op::Insert(c) => self.insert_char(c),
            Op::InsertPlain(c) => self.moved(self.doc.insert_char(c, false)),
            Op::Enter => self.enter(),
            Op::Backspace => self.backspace(),
            Op::DeleteChar => self.delete_char(),
            Op::Join => self.join(),
            Op::KillLine => self.kill_line(),
            Op::YankLine => self.yank_line(),
            Op::Paste(after) => self.paste(after),
            Op::OpenAbove => self.open_line(true),
            Op::OpenBelow => self.open_line(false),
            Op::Indent => self.indent(),
            Op::Left => self.moved(self.doc.move_left()),
            Op::Right => self.moved(self.doc.move_right()),
            Op::RightWithin => self.moved(self.doc.move_right_within()),
            Op::Up => self.up(),
            Op::Down => self.down(),
            Op::Home => self.moved(Doc { col: 0, ..self.doc }),
            Op::End => self.moved(Doc { col: self.doc.line().len() as int, ..self.doc }),
            Op::Top => self.top(),
            Op::Bottom => self.bottom(),
            Op::BackToIndentation => self.moved(self.doc.back_to_indentation()),
            Op::MwimBeginning => self.mwim_beginning(),
            Op::MwimEnd => self.mwim_end(),
            Op::SearchNext => self.search_next(),
            Op::SearchPrevious => self.search_previous(),
            Op::Go(mode) => self.in_mode(mode),
            Op::Ask(prompt) => self.ask(prompt),
            Op::DeleteSelection => self.delete_selection(),
            Op::CopySelection => self.copy_selection(),
            Op::Track => self.track(),
        }
    }
}

impl Editor {
    /// Marks the chord prefix as pending or not.
    pub fn set_chord(&mut self, pending: bool)
        requires
            old(self).wf(),
        ensures
            final(self)@ == old(self)@.chord(pending),
            final(self).wf(),
    {
        self.keychords.ctrl_x_pressed = pending;
    }

    /// Switches the fringe over.
    pub fn toggle_fringe(&mut self)
        requires
            old(self).wf(),
        ensures
            final(self)@ == old(self)@.toggle_fringe(),
            final(self).wf(),
    {
        self.settings.show_fringe = !self.settings.show_fringe;
    }

    /// Switches the line numbers over.
    pub fn toggle_line_numbers(&mut self)
        requires
            old(self).wf(),
        ensures
            final(self)@ == old(self)@.toggle_line_numbers(),
            final(self).wf(),
    {
        self.settings.show_line_numbers = !self.settings.show_line_numbers;
    }

    /// Switches the highlighting of matches on or off.
    pub fn set_highlight(&mut self, on: bool)
        requires
            old(self).wf(),
        ensures
            final(self)@ == old(self)@.highlighting(on),
            final(self).wf(),
    {
        self.highlight = on;
    }

    /// Inserts `c` and never its closer.
    pub fn insert_plain(&mut self, c: char)
        requires
            old(self).wf(),
        ensures
            final(self)@ == old(self)@.moved(old(self)@.doc.insert_char(c, false)),
            final(self).wf(),
    {
        self.buffer.insert_char(c, false);
    }

    /// One column right, staying on a character.
    pub fn right_within(&mut self)
        requires
            old(self).wf(),
        ensures
            final(self)@ == old(self)@.moved(old(self)@.doc.move_right_within()),
            final(self).wf(),
    {
        self.buffer.move_right_within();
    }

    /// To column zero.
    pub fn home(&mut self)
        requires
            old(self).wf(),
        ensures
            final(self)@ == old(self)@.moved(Doc { col: 0, ..old(self)@.doc }),
            final(self).wf(),
    {
        self.buffer.move_home();
    }

    /// To just past the last character of the line.
    pub fn end(&mut self)
        requires
            old(self).wf(),
        ensures
            final(self)@ == old(self)@.moved(
                Doc { col: old(self)@.doc.line().len() as int, ..old(self)@.doc },
            ),
            final(self).wf(),
    {
        self.buffer.move_end();
    }

    /// To the start of the document; see `Session::top`.
    pub fn top(&mut self)
        requires
            old(self).wf(),
        ensures
            final(self)@ == old(self)@.top(),
            final(self).wf(),
    {
        self.buffer.move_to_top();
        self.window.scroll_to_top(self.buffer.lines.len());
    }

    /// To the end of the document; see `Session::bottom`.
    pub fn bottom(&mut self)
        requires
            old(self).wf(),
        ensures
            final(self)@ == old(self)@.bottom(),
            final(self).wf(),
    {
        self.buffer.move_to_bottom();
        self.window.scroll_to_bottom(self.buffer.cursor.row, self.buffer.lines.len());
    }

    /// Opens the minibuffer; see `Session::ask`.
    pub fn ask(&mut self, prompt: Prompt)
        requires
            old(self).wf(),
        ensures
            final(self)@ == old(self)@.ask(prompt),
            final(self).wf(),
    {
        self.prompt = Some(prompt);
        self.input = Vec::new();
        match prompt {
            Prompt::Search => {
                self.searching = true;
            },
            Prompt::InsertSearch => {
                self.searching = true;
            },
            _ => {},
        }
    }

    /// Lets the selection's moving end follow the caret.
    pub fn track(&mut self)
        requires
            old(self).wf(),
        ensures
            final(self)@ == old(self)@.track(),
            final(self).wf(),
    {
        match self.selection {
            Some(s) => {
                self.selection = Some(Selection { anchor: s.anchor, active: self.buffer.cursor });
            },
            None => {},
        }
    }

    /// Performs one command; see `Session::apply`.
    pub fn perform(&mut self, op: Op)
        requires
            old(self).wf(),
        ensures
            final(self)@ == old(self)@.apply(op),
            final(self).wf(),
    {
        match op {
            Op::Idle => {},
            Op::ArmChord => self.set_chord(true),
            Op::DropChord => self.set_chord(false),
            Op::ToggleFringe => self.toggle_fringe(),
            Op::ToggleLineNumbers => self.toggle_line_numbers(),
            Op::Highlight(on) => self.set_highlight(on),
            Op::Snapshot => self.snapshot(),
            Op::Undo => self.undo(),
            Op::Redo => self.redo(),
            Op::Insert(c) => self.insert_char(c),
            Op::InsertPlain(c) => self.insert_plain(c),
            Op::Enter => self.enter(),
            Op::Backspace => self.backspace(),
            Op::DeleteChar => self.delete_char(),
            Op::Join => self.join(),
            Op::KillLine => self.kill_line(),
            Op::YankLine => self.yank_line(),
            Op::Paste(after) => self.paste(after),
            Op::OpenAbove => self.open_above(),
            Op::OpenBelow => self.open_below(),
            Op::Indent => self.indent(),
            Op::Left => self.left(),
            Op::Right => self.right(),
            Op::RightWithin => self.right_within(),
            Op::Up => self.up(),
            Op::Down => self.down(),
            Op::Home => self.home(),
            Op::End => self.end(),
            Op::Top => self.top(),
            Op::Bottom => self.bottom(),
            Op::BackToIndentation => self.back_to_indentation(),
            Op::MwimBeginning => self.mwim_beginning(),
            Op::MwimEnd => self.mwim_end(),
            Op::SearchNext => self.search_next(),
            Op::SearchPrevious => self.search_previous(),
            Op::Go(mode) => self.set_mode(mode),
            Op::Ask(prompt) => self.ask(prompt),
            Op::DeleteSelection => self.delete_selection(),
            Op::CopySelection => self.copy_selection(),
            Op::Track => self.track(),
        }
    }
}

} // verus!
