//! The dispatcher: routes a key press to the minibuffer or to the bindings
//! of the current mode.

use vstd::prelude::*;
use crate::bindings::{dired_binding, dired_keys, insert_binding, insert_keys, normal_binding, normal_keys,
    visual_binding, visual_keys, Action, Binding};
use crate::editor::Editor;
use crate::keys::{Key, KeyCode, Modifiers};
use crate::search::{lemma_next_hit, next_hit, Hit};
use crate::session::{Mode, Notice, Prompt, Scroll, Session};
use crate::text::copy_range;

verus! {

/// Whether `c` is a decimal digit.
pub open spec fn is_digit(c: char) -> bool {
    '0' <= c <= '9'
}

/// The number that a sequence of digits denotes.
pub open spec fn digits_value(s: Seq<char>) -> nat
    decreases s.len(),
{
    if s.len() == 0 {
        0
    } else {
        digits_value(s.drop_last()) * 10 + (s.last() as nat - '0' as nat) as nat
    }
}

/// The digits of a number: the text without a leading plus sign.
pub open spec fn number_digits(s: Seq<char>) -> Seq<char> {
    if s.len() > 0 && s[0] == '+' {
        s.subrange(1, s.len() as int)
    } else {
        s
    }
}

/// The line number that `s` denotes: one or more digits, after at most one
/// plus sign, whose value fits the machine word.
pub open spec fn line_number(s: Seq<char>) -> Option<usize> {
    let d = number_digits(s);
    if d.len() > 0 && (forall|i: int| 0 <= i < d.len() ==> is_digit(#[trigger] d[i]))
        && digits_value(d) <= usize::MAX {
        Some(digits_value(d) as usize)
    } else {
        None
    }
}

/// The value of a prefix of a sequence of digits is at most the value of
/// the sequence.
pub proof fn lemma_digits_prefix(s: Seq<char>, i: int)
    requires
        0 <= i <= s.len(),
        forall|k: int| 0 <= k < s.len() ==> is_digit(#[trigger] s[k]),
    ensures
        digits_value(s.subrange(0, i)) <= digits_value(s),
    decreases s.len(),
{
    if i == s.len() {
        assert(s.subrange(0, i) =~= s);
    } else {
        assert(s.drop_last().subrange(0, i) =~= s.subrange(0, i));
        lemma_digits_prefix(s.drop_last(), i);
    }
}

/// Reads a line number; see `line_number`.
pub fn parse_line_number(text: &Vec<char>) -> (n: Option<usize>)
    ensures
        n == line_number(text@),
{
    let start: usize = if text.len() > 0 && text[0] == '+' {
        1
    } else {
        0
    };
    let ghost d = number_digits(text@);
    if start == text.len() {
        return None;
    }
    let mut value: usize = 0;
    let mut i: usize = start;
    assert(d.subrange(0, 0) =~= Seq::<char>::empty());
    while i < text.len()
        invariant
            start <= i <= text.len(),
            d == number_digits(text@),
            d.len() == text.len() - start,
            forall|k: int| 0 <= k < d.len() ==> d[k] == text@[k + start],
            forall|k: int| 0 <= k < i - start ==> is_digit(#[trigger] d[k]),
            value == digits_value(d.subrange(0, i - start)),
        decreases text.len() - i,
    {
        let c = text[i];
        if !('0' <= c && c <= '9') {
            assert(!is_digit(d[i - start]));
            return None;
        }
        let digit: usize = (c as u8 - 48) as usize;
        assert(d.subrange(0, i - start + 1).drop_last() =~= d.subrange(0, i - start));
        assert(d.subrange(0, i - start + 1).last() == c);
        if value > (usize::MAX - digit) / 10 {
            proof {
                if forall|k: int| 0 <= k < d.len() ==> is_digit(#[trigger] d[k]) {
                    lemma_digits_prefix(d, i - start + 1);
                }
            }
            return None;
        }
        value = value * 10 + digit;
        i += 1;
    }
    assert(d.subrange(0, d.len() as int) =~= d);
    Some(value)
}

/// Whether `text` is exactly the one character `a`.
pub fn is_one(text: &Vec<char>, a: char) -> (b: bool)
    ensures
        b == (text@ == seq![a]),
{
    if text.len() == 1 && text[0] == a {
        assert(text@ =~= seq![a]);
        true
    } else {
        false
    }
}

/// Whether `text` is exactly the two characters `a`, `b`.
pub fn is_two(text: &Vec<char>, a: char, b: char) -> (r: bool)
    ensures
        r == (text@ == seq![a, b]),
{
    if text.len() == 2 && text[0] == a && text[1] == b {
        assert(text@ =~= seq![a, b]);
        true
    } else {
        false
    }
}

impl Session {
    /// The session after the two commands of a binding.
    pub open spec fn run(self, b: Binding) -> Session {
        self.apply(b.first).apply(b.second)
    }

    /// The binding of `key` in the current mode.
    pub open spec fn binding(self, key: Key) -> Binding {
        match self.mode {
            Mode::Normal => normal_keys(key, self.keychords.ctrl_x_pressed),
            Mode::Insert => insert_keys(key),
            Mode::Visual => visual_keys(key),
            Mode::Dired => dired_keys(key),
        }
    }

    /// The session after the minibuffer is closed with its input.
    pub open spec fn closed(self) -> Session {
        Session { prompt: None, entered: self.input, input: Seq::empty(), ..self }
    }

    /// The session after the minibuffer is given up: its input, and the
    /// search that was being typed, are forgotten.
    pub open spec fn cancelled(self) -> Session {
        Session {
            prompt: None,
            input: Seq::empty(),
            searching: false,
            query: Seq::empty(),
            ..self
        }
    }

    /// The session after `text` is taken as the new query and searched for
    /// from the caret on. The caret goes to the next occurrence, where there
    /// is one, and the window keeps the margins.
    pub open spec fn start_search(self, text: Seq<char>) -> Session {
        let hit = next_hit(self.doc.lines, text, self.doc.caret());
        Session { query: text, doc: self.doc.at(hit.at), ..self }.adjust_view_to_cursor(
            Scroll::Margins,
        )
    }

    /// The session after a command line is entered: a line number moves
    /// the caret, and what is neither a command nor a number leaves a
    /// notice.
    pub open spec fn command_line(self, text: Seq<char>) -> Session {
        if text == seq!['w'] || text == seq!['q'] || text == seq!['w', 'q'] {
            self
        } else {
            match line_number(text) {
                Some(n) => self.goto_line(n as int),
                None => self.noting(Notice::InvalidCommand),
            }
        }
    }

    /// What the host is to do with an entered command line.
    pub open spec fn command_action(text: Seq<char>) -> Action {
        if text == seq!['w'] {
            Action::Save
        } else if text == seq!['q'] {
            Action::Quit
        } else if text == seq!['w', 'q'] {
            Action::SaveAndQuit
        } else {
            Action::Idle
        }
    }

    /// The session after Enter in the minibuffer.
    pub open spec fn submit(self) -> Session {
        match self.prompt {
            Some(Prompt::Command) => self.closed().command_line(self.input),
            Some(Prompt::Search) => self.closed().start_search(self.input),
            _ => self.closed(),
        }
    }

    /// What the host is to do after Enter in the minibuffer.
    pub open spec fn submit_action(self) -> Action {
        match self.prompt {
            Some(Prompt::SwitchTheme) => Action::SwitchTheme,
            Some(Prompt::Eval) => Action::Eval,
            Some(Prompt::Shell) => Action::Shell,
            Some(Prompt::FindFile) => Action::Open,
            Some(Prompt::Command) => Session::command_action(self.input),
            Some(Prompt::Search) => Action::Idle,
            Some(p) => if self.mode != Mode::Dired {
                Action::Idle
            } else {
                match p {
                    Prompt::CreateDirectory => Action::CreateDirectory,
                    Prompt::Delete => if self.input == seq!['y'] {
                        Action::DeleteEntry
                    } else {
                        Action::Idle
                    },
                    Prompt::Rename => Action::RenameEntry,
                    Prompt::TouchOpen => Action::TouchOpen,
                    _ => Action::Touch,
                }
            },
            None => Action::Idle,
        }
    }

    /// The session after a key press while the minibuffer is open.
    pub open spec fn minibuffer_key(self, key: Key) -> Session {
        match key.code {
            KeyCode::Char(c) => Session { input: self.input.push(c), ..self },
            KeyCode::Backspace => Session {
                input: if self.input.len() > 0 {
                    self.input.drop_last()
                } else {
                    self.input
                },
                ..self
            },
            KeyCode::Esc => self.cancelled(),
            KeyCode::Enter => self.submit(),
            _ => self,
        }
    }

    /// Whether the minibuffer takes the key for itself: it is open and the
    /// key is Enter.
    pub open spec fn entering(self, key: Key) -> bool {
        self.prompt is Some && key.code == KeyCode::Enter
    }

    /// The session after the minibuffer, when it is open, has seen the key.
    pub open spec fn after_minibuffer(self, key: Key) -> Session {
        if self.prompt is Some {
            self.minibuffer_key(key)
        } else {
            self
        }
    }

    /// Whether the mode's bindings see the key: the minibuffer has not
    /// taken it and is closed, and no overlay is open.
    pub open spec fn reaches_mode(self, key: Key, overlay: bool) -> bool {
        !self.entering(key) && !overlay && self.after_minibuffer(key).prompt is None
    }

    /// The session after a key press. The minibuffer, when open, sees the
    /// key first. Unless it took the key, is still open, or an overlay is
    /// open, the bindings of the current mode follow. A key without
    /// modifiers drops a pending chord.
    pub open spec fn handle_keys(self, key: Key, overlay: bool) -> Session {
        let s = self.after_minibuffer(key);
        let t = if self.reaches_mode(key, overlay) {
            s.run(s.binding(key))
        } else {
            s
        };
        if key.mods == Modifiers::Plain {
            t.chord(false)
        } else {
            t
        }
    }

    /// What the host is to do after a key press.
    pub open spec fn key_action(self, key: Key, overlay: bool) -> Action {
        if self.entering(key) {
            self.submit_action()
        } else if self.reaches_mode(key, overlay) {
            self.after_minibuffer(key).binding(key).action
        } else {
            Action::Idle
        }
    }
}

impl Editor {
    /// Performs the two commands of a binding and returns its action.
    pub fn run(&mut self, b: Binding) -> (action: Action)
        requires
            old(self).wf(),
        ensures
            final(self)@ == old(self)@.run(b),
            action == b.action,
            final(self).wf(),
    {
        self.perform(b.first);
        self.perform(b.second);
        b.action
    }

    /// Handles a key in Normal mode; see `normal_keys`.
    pub fn handle_normal_mode(&mut self, key: Key) -> (action: Action)
        requires
            old(self).wf(),
        ensures
            final(self)@ == old(self)@.run(normal_keys(key, old(self)@.keychords.ctrl_x_pressed)),
            action == normal_keys(key, old(self)@.keychords.ctrl_x_pressed).action,
            final(self).wf(),
    {
        let b = normal_binding(key, self.keychords.ctrl_x_pressed);
        self.run(b)
    }

    /// Handles a key in Insert mode; see `insert_keys`.
    pub fn handle_insert_mode(&mut self, key: Key) -> (action: Action)
        requires
            old(self).wf(),
        ensures
            final(self)@ == old(self)@.run(insert_keys(key)),
            action == insert_keys(key).action,
            final(self).wf(),
    {
        let b = insert_binding(key);
        self.run(b)
    }

    /// Handles a key in Visual mode; see `visual_keys`.
    pub fn handle_visual_mode(&mut self, key: Key) -> (action: Action)
        requires
            old(self).wf(),
        ensures
            final(self)@ == old(self)@.run(visual_keys(key)),
            action == visual_keys(key).action,
            final(self).wf(),
    {
        let b = visual_binding(key);
        self.run(b)
    }

    /// Handles a key in Dired mode; see `dired_keys`.
    pub fn handle_dired_mode(&mut self, key: Key) -> (action: Action)
        requires
            old(self).wf(),
        ensures
            final(self)@ == old(self)@.run(dired_keys(key)),
            action == dired_keys(key).action,
            final(self).wf(),
    {
        let b = dired_binding(key);
        self.run(b)
    }

    /// Closes the minibuffer with its input; see `Session::closed`.
    fn close_minibuffer(&mut self)
        requires
            old(self).wf(),
        ensures
            final(self)@ == old(self)@.closed(),
            final(self).wf(),
    {
        self.prompt = None;
        self.entered = copy_range(&self.input, 0, self.input.len());
        self.input = Vec::new();
        assert(self.entered@ =~= old(self).input@);
    }

    /// Gives the minibuffer up; see `Session::cancelled`.
    fn cancel_minibuffer(&mut self)
        requires
            old(self).wf(),
        ensures
            final(self)@ == old(self)@.cancelled(),
            final(self).wf(),
    {
        self.prompt = None;
        self.input = Vec::new();
        self.searching = false;
        self.query = Vec::new();
    }

    /// Takes the entered line as the query and searches for it; see
    /// `Session::start_search`.
    fn start_search(&mut self)
        requires
            old(self).wf(),
        ensures
            final(self)@ == old(self)@.start_search(old(self)@.entered),
            final(self).wf(),
    {
        self.query = copy_range(&self.entered, 0, self.entered.len());
        assert(self.query@ =~= self.entered@);
        let outcome = self.buffer.search_next(&self.query);
        proof {
            lemma_next_hit(
                old(self)@.doc.lines,
                self.query@,
                old(self)@.doc.caret(),
                Hit { at: self.buffer@.caret(), outcome },
            );
        }
        self.window.scroll_with_margins(self.buffer.cursor.row, self.buffer.lines.len());
    }

    /// Carries out an entered command line; see `Session::command_line`.
    fn command_line(&mut self) -> (action: Action)
        requires
            old(self).wf(),
        ensures
            final(self)@ == old(self)@.command_line(old(self)@.entered),
            action == Session::command_action(old(self)@.entered),
            final(self).wf(),
    {
        if is_one(&self.entered, 'w') {
            Action::Save
        } else if is_one(&self.entered, 'q') {
            Action::Quit
        } else if is_two(&self.entered, 'w', 'q') {
            Action::SaveAndQuit
        } else {
            match parse_line_number(&self.entered) {
                Some(n) => self.goto_line(n),
                None => self.message(Notice::InvalidCommand),
            }
            Action::Idle
        }
    }

    /// Handles Enter in the minibuffer; see `Session::submit`.
    pub fn submit(&mut self) -> (action: Action)
        requires
            old(self).wf(),
        ensures
            final(self)@ == old(self)@.submit(),
            action == old(self)@.submit_action(),
            final(self).wf(),
    {
        let prompt = self.prompt;
        let dired = match self.mode {
            Mode::Dired => true,
            _ => false,
        };
        let yes = is_one(&self.input, 'y');
        self.close_minibuffer();
        match prompt {
            Some(Prompt::SwitchTheme) => Action::SwitchTheme,
            Some(Prompt::Eval) => Action::Eval,
            Some(Prompt::Shell) => Action::Shell,
            Some(Prompt::FindFile) => Action::Open,
            Some(Prompt::Command) => self.command_line(),
            Some(Prompt::Search) => {
                self.start_search();
                Action::Idle
            },
            Some(p) => if !dired {
                Action::Idle
            } else {
                match p {
                    Prompt::CreateDirectory => Action::CreateDirectory,
                    Prompt::Delete => if yes {
                        Action::DeleteEntry
                    } else {
                        Action::Idle
                    },
                    Prompt::Rename => Action::RenameEntry,
                    Prompt::TouchOpen => Action::TouchOpen,
                    _ => Action::Touch,
                }
            },
            None => Action::Idle,
        }
    }

    /// Handles a key while the minibuffer is open; see
    /// `Session::minibuffer_key`.
    pub fn handle_minibuffer(&mut self, key: Key) -> (action: Action)
        requires
            old(self).wf(),
        ensures
            final(self)@ == old(self)@.minibuffer_key(key),
            action == (if key.code == KeyCode::Enter {
                old(self)@.submit_action()
            } else {
                Action::Idle
            }),
            final(self).wf(),
    {
        match key.code {
            KeyCode::Char(c) => {
                self.input.push(c);
                Action::Idle
            },
            KeyCode::Backspace => {
                if self.input.len() > 0 {
                    self.input.pop();
                }
                Action::Idle
            },
            KeyCode::Esc => {
                self.cancel_minibuffer();
                Action::Idle
            },
            KeyCode::Enter => self.submit(),
            _ => Action::Idle,
        }
    }

    /// Handles a key in the current mode; see `Session::binding`.
    pub fn handle_mode(&mut self, key: Key) -> (action: Action)
        requires
            old(self).wf(),
        ensures
            final(self)@ == old(self)@.run(old(self)@.binding(key)),
            action == old(self)@.binding(key).action,
            final(self).wf(),
    {
        match self.mode {
            Mode::Normal => self.handle_normal_mode(key),
            Mode::Insert => self.handle_insert_mode(key),
            Mode::Visual => self.handle_visual_mode(key),
            Mode::Dired => self.handle_dired_mode(key),
        }
    }

    /// Handles a key press and returns what the host is to do. `overlay`
    /// says whether the finder is open. See `Session::handle_keys`.
    pub fn handle_keys(&mut self, key: Key, overlay: bool) -> (action: Action)
        requires
            old(self).wf(),
        ensures
            final(self)@ == old(self)@.handle_keys(key, overlay),
            action == old(self)@.key_action(key, overlay),
            final(self).wf(),
    {
        let mut action = Action::Idle;
        let mut handled = false;
        if self.prompt.is_some() {
            handled = match key.code {
                KeyCode::Enter => true,
                _ => false,
            };
            action = self.handle_minibuffer(key);
        }
        if !handled && !overlay && self.prompt.is_none() {
            action = self.handle_mode(key);
        }
        match key.mods {
            Modifiers::Plain => self.set_chord(false),
            _ => {},
        }
        action
    }
}

} // verus!
