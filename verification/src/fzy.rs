//! The finder overlay: a list of file names or commands, narrowed by what
//! is typed, with one item selected.
//!
//! The finder decides; the host lists directories, opens files and runs
//! commands when an event asks for it.

use vstd::prelude::*;
use crate::bindings::Action;
use crate::document::text_of;
use crate::keys::{Key, KeyCode, Modifiers};
use crate::search::{find_in_line, line_match};
use crate::text::{chars_of, copy_range};

verus! {

/// What the host is to do after the finder has seen a key.
#[derive(Clone, Copy, Debug, PartialEq, Eq, Structural)]
pub enum FzyEvent {
    /// Nothing: the key means nothing to the finder.
    Ignored,
    /// The selection moved.
    Moved,
    /// The input changed: list the directory again and call
    /// `update_items`.
    Refresh,
    /// The finder was given up.
    Closed,
    /// Open the file that `chosen` names.
    Open,
    /// Carry out a command.
    Run(Action),
}

/// The state of the finder.
#[derive(Debug)]
pub struct Fzy {
    pub active: bool,
    pub items: Vec<Vec<char>>,
    pub input: Vec<char>,
    pub selection_index: usize,
    pub max_visible_lines: usize,
    /// Whether the items are commands rather than files.
    pub m_x_active: bool,
    /// The item that the finder was closed with.
    pub chosen: Vec<char>,
}

/// The model of a finder.
pub struct FzyModel {
    pub active: bool,
    pub items: Seq<Seq<char>>,
    pub input: Seq<char>,
    pub index: int,
    pub max_visible: int,
    pub commands: bool,
    pub chosen: Seq<char>,
}

impl View for Fzy {
    type V = FzyModel;

    open spec fn view(&self) -> FzyModel {
        FzyModel {
            active: self.active,
            items: text_of(self.items@),
            input: self.input@,
            index: self.selection_index as int,
            max_visible: self.max_visible_lines as int,
            commands: self.m_x_active,
            chosen: self.chosen@,
        }
    }
}

/// Whether `name` contains `input`. Every name contains the empty input.
pub open spec fn contains_text(name: Seq<char>, input: Seq<char>) -> bool {
    input.len() == 0 || exists|c: int| line_match(name, input, c)
}

/// The names among `names` that contain `input`, in their order.
pub open spec fn matching(names: Seq<Seq<char>>, input: Seq<char>) -> Seq<Seq<char>>
    decreases names.len(),
{
    if names.len() == 0 {
        Seq::empty()
    } else if contains_text(names.last(), input) {
        matching(names.drop_last(), input).push(names.last())
    } else {
        matching(names.drop_last(), input)
    }
}

/// The names of the commands, in the order in which the finder lists
/// them.
pub open spec fn command_names() -> Seq<Seq<char>> {
    seq!["save-buffer"@, "dired-jump"@, "eval-buffer"@, "debug-ast"@]
}

/// What the host is to do for the command at `index` of the list.
pub open spec fn command_action(index: int) -> Action {
    if index == 0 {
        Action::Save
    } else if index == 1 {
        Action::DiredJump
    } else if index == 2 {
        Action::EvalBuffer
    } else if index == 3 {
        Action::DebugAst
    } else {
        Action::Idle
    }
}

/// The items that a directory with the entries `names` offers: the
/// directory itself, its parent and the entries, as far as they contain
/// the input.
pub open spec fn file_items(names: Seq<Seq<char>>, input: Seq<char>) -> Seq<Seq<char>> {
    matching(seq!["."@, ".."@] + names, input)
}

/// The rows that the finder takes on screen: one for the input and one
/// for each visible item, at most `max_height + 1`.
pub open spec fn finder_height(items: int, max_visible: int, max_height: int) -> int {
    let visible = if items <= max_visible {
        items
    } else {
        max_visible
    };
    if visible <= max_height {
        visible + 1
    } else {
        max_height + 1
    }
}

impl FzyModel {
    /// The selection is an item, or zero when there is none.
    pub open spec fn valid(self) -> bool {
        0 <= self.index && (self.index < self.items.len() || self.index == 0)
    }

    /// The finder with the selection one item down, where there is one.
    pub open spec fn down(self) -> FzyModel {
        if self.index + 1 < self.items.len() {
            FzyModel { index: self.index + 1, ..self }
        } else {
            self
        }
    }

    /// The finder with the selection one item up, where there is one.
    pub open spec fn up(self) -> FzyModel {
        if self.index > 0 {
            FzyModel { index: self.index - 1, ..self }
        } else {
            self
        }
    }

    /// The finder closed: no input and no items are left.
    pub open spec fn closed(self) -> FzyModel {
        FzyModel {
            active: false,
            commands: false,
            input: Seq::empty(),
            items: Seq::empty(),
            index: 0,
            ..self
        }
    }

    /// The finder opened for files or for commands, with no input yet and
    /// no items until `update_items` fills them in.
    pub open spec fn opened(self, commands: bool) -> FzyModel {
        FzyModel {
            active: true,
            commands,
            input: Seq::empty(),
            items: Seq::empty(),
            index: 0,
            ..self
        }
    }

    /// The finder with its items listed anew and the first one selected:
    /// the commands, or the matching names of a directory.
    pub open spec fn listed(self, names: Seq<Seq<char>>) -> FzyModel {
        FzyModel {
            items: if self.commands {
                command_names()
            } else {
                file_items(names, self.input)
            },
            index: 0,
            ..self
        }
    }

    /// The finder after Enter: closed with the selected item, where there
    /// is one.
    pub open spec fn entered(self) -> FzyModel {
        if self.index < self.items.len() {
            FzyModel { chosen: self.items[self.index], ..self.closed() }
        } else {
            self
        }
    }

    /// The finder after a key press.
    pub open spec fn key(self, key: Key) -> FzyModel {
        match (key.mods, key.code) {
            (Modifiers::Control, KeyCode::Char('n')) => self.down(),
            (Modifiers::Control, KeyCode::Char('j')) => self.down(),
            (Modifiers::Control, KeyCode::Char('p')) => self.up(),
            (Modifiers::Control, KeyCode::Char('k')) => self.up(),
            (Modifiers::Plain, KeyCode::Down) => self.down(),
            (Modifiers::Plain, KeyCode::Up) => self.up(),
            (Modifiers::Plain, KeyCode::Char(c)) => FzyModel { input: self.input.push(c), ..self },
            (Modifiers::Plain, KeyCode::Backspace) => FzyModel {
                input: if self.input.len() > 0 {
                    self.input.drop_last()
                } else {
                    self.input
                },
                ..self
            },
            (Modifiers::Plain, KeyCode::Esc) => self.closed(),
            (Modifiers::Plain, KeyCode::Enter) => self.entered(),
            _ => self,
        }
    }

    /// What the host is to do after a key press.
    pub open spec fn event(self, key: Key) -> FzyEvent {
        match (key.mods, key.code) {
            (Modifiers::Control, KeyCode::Char('n')) => FzyEvent::Moved,
            (Modifiers::Control, KeyCode::Char('j')) => FzyEvent::Moved,
            (Modifiers::Control, KeyCode::Char('p')) => FzyEvent::Moved,
            (Modifiers::Control, KeyCode::Char('k')) => FzyEvent::Moved,
            (Modifiers::Plain, KeyCode::Down) => FzyEvent::Moved,
            (Modifiers::Plain, KeyCode::Up) => FzyEvent::Moved,
            (Modifiers::Plain, KeyCode::Char(c)) => FzyEvent::Refresh,
            (Modifiers::Plain, KeyCode::Backspace) => FzyEvent::Refresh,
            (Modifiers::Plain, KeyCode::Esc) => FzyEvent::Closed,
            (Modifiers::Plain, KeyCode::Enter) => if self.index >= self.items.len() {
                FzyEvent::Ignored
            } else if self.commands {
                FzyEvent::Run(command_action(self.index))
            } else {
                FzyEvent::Open
            },
            _ => FzyEvent::Ignored,
        }
    }
}

/// Whether `name` contains `input`; see `contains_text`.
pub fn contains(name: &Vec<char>, input: &Vec<char>) -> (found: bool)
    ensures
        found == contains_text(name@, input@),
{
    if input.len() == 0 {
        return true;
    }
    match find_in_line(name, input, 0) {
        Some(_) => true,
        None => {
            assert forall|c: int| !line_match(name@, input@, c) by {}
            false
        },
    }
}

/// What the host is to do for the command at `index`; see
/// `command_action`.
pub fn action_of_command(index: usize) -> (action: Action)
    ensures
        action == command_action(index as int),
{
    if index == 0 {
        Action::Save
    } else if index == 1 {
        Action::DiredJump
    } else if index == 2 {
        Action::EvalBuffer
    } else if index == 3 {
        Action::DebugAst
    } else {
        Action::Idle
    }
}

impl Fzy {
    /// The selection is an item, or zero when there is none.
    pub open spec fn wf(&self) -> bool {
        self@.valid()
    }

    /// Whether the selection is an item, or zero when there is none.
    pub fn is_valid(&self) -> (ok: bool)
        ensures
            ok == self.wf(),
    {
        self.selection_index < self.items.len() || self.selection_index == 0
    }

    /// A closed finder that shows at most eleven items.
    pub fn new() -> (f: Fzy)
        ensures
            f.wf(),
            !f@.active,
            !f@.commands,
            f@.items.len() == 0,
            f@.input.len() == 0,
            f@.chosen.len() == 0,
            f@.index == 0,
            f@.max_visible == 11,
    {
        Fzy {
            active: false,
            items: Vec::new(),
            input: Vec::new(),
            selection_index: 0,
            max_visible_lines: 11,
            m_x_active: false,
            chosen: Vec::new(),
        }
    }

    /// Opens the finder for files, or for commands; see
    /// `FzyModel::opened`.
    pub fn open(&mut self, commands: bool)
        ensures
            final(self)@ == old(self)@.opened(commands),
            final(self).wf(),
    {
        self.active = true;
        self.m_x_active = commands;
        self.input = Vec::new();
        self.items = Vec::new();
        self.selection_index = 0;
        assert(text_of(self.items@) =~= Seq::<Seq<char>>::empty());
    }

    /// Closes the finder; see `FzyModel::closed`.
    pub fn close(&mut self)
        ensures
            final(self)@ == old(self)@.closed(),
            final(self).wf(),
    {
        self.active = false;
        self.m_x_active = false;
        self.input = Vec::new();
        self.items = Vec::new();
        self.selection_index = 0;
        assert(text_of(self.items@) =~= Seq::<Seq<char>>::empty());
    }

    /// Lists the items anew; `names` are the entries of the directory.
    /// See `FzyModel::listed`.
    pub fn update_items(&mut self, names: &Vec<Vec<char>>)
        ensures
            final(self)@ == old(self)@.listed(text_of(names@)),
            final(self).wf(),
    {
        let mut items: Vec<Vec<char>> = Vec::new();
        if self.m_x_active {
            items.push(chars_of("save-buffer"));
            items.push(chars_of("dired-jump"));
            items.push(chars_of("eval-buffer"));
            items.push(chars_of("debug-ast"));
            assert(text_of(items@) =~= command_names());
        } else {
            let ghost all = seq!["."@, ".."@] + text_of(names@);
            let here = chars_of(".");
            let parent = chars_of("..");
            assert(all.subrange(0, 0) =~= Seq::<Seq<char>>::empty());
            assert(all.subrange(0, 1).drop_last() =~= all.subrange(0, 0));
            assert(all.subrange(0, 2).drop_last() =~= all.subrange(0, 1));
            assert(matching(all.subrange(0, 0), self.input@) =~= Seq::<Seq<char>>::empty());
            assert(all.subrange(0, 1).last() == here@);
            assert(all.subrange(0, 2).last() == parent@);
            assert(text_of(items@) =~= Seq::<Seq<char>>::empty());
            if contains(&here, &self.input) {
                items.push(here);
                assert(text_of(items@) =~= Seq::<Seq<char>>::empty().push(here@));
            }
            assert(text_of(items@) =~= matching(all.subrange(0, 1), self.input@));
            let ghost one = text_of(items@);
            if contains(&parent, &self.input) {
                items.push(parent);
                assert(text_of(items@) =~= one.push(parent@));
            }
            assert(text_of(items@) =~= matching(all.subrange(0, 2), self.input@));
            let mut i: usize = 0;
            while i < names.len()
                invariant
                    i <= names.len(),
                    all == seq!["."@, ".."@] + text_of(names@),
                    text_of(items@) == matching(all.subrange(0, i + 2), self.input@),
                decreases names.len() - i,
            {
                assert(all.subrange(0, i + 3).drop_last() =~= all.subrange(0, i + 2));
                assert(all.subrange(0, i + 3).last() == names@[i as int]@);
                if contains(&names[i], &self.input) {
                    let name = copy_range(&names[i], 0, names[i].len());
                    assert(name@ =~= names@[i as int]@);
                    let ghost before = text_of(items@);
                    items.push(name);
                    assert(text_of(items@) =~= before.push(names@[i as int]@));
                }
                i += 1;
            }
            assert(all.subrange(0, names.len() + 2) =~= all);
        }
        self.items = items;
        self.selection_index = 0;
    }

    /// The rows that the finder takes on screen; see `finder_height`.
    pub fn calculate_minibuffer_height(&self, max_height: usize) -> (rows: usize)
        requires
            max_height < usize::MAX,
        ensures
            rows == finder_height(self@.items.len() as int, self@.max_visible, max_height as int),
    {
        let visible: usize = if self.items.len() <= self.max_visible_lines {
            self.items.len()
        } else {
            self.max_visible_lines
        };
        if visible <= max_height {
            visible + 1
        } else {
            max_height + 1
        }
    }

    /// Moves the selection one item down.
    fn select_next(&mut self)
        requires
            old(self).wf(),
        ensures
            final(self)@ == old(self)@.down(),
            final(self).wf(),
    {
        if self.selection_index < self.items.len() && self.selection_index + 1 < self.items.len() {
            self.selection_index += 1;
        }
    }

    /// Moves the selection one item up.
    fn select_previous(&mut self)
        requires
            old(self).wf(),
        ensures
            final(self)@ == old(self)@.up(),
            final(self).wf(),
    {
        if self.selection_index > 0 {
            self.selection_index -= 1;
        }
    }

    /// Closes the finder with the selected item, where there is one.
    fn choose_item(&mut self) -> (event: FzyEvent)
        requires
            old(self).wf(),
        ensures
            final(self)@ == old(self)@.entered(),
            event == (if old(self)@.index >= old(self)@.items.len() {
                FzyEvent::Ignored
            } else if old(self)@.commands {
                FzyEvent::Run(command_action(old(self)@.index))
            } else {
                FzyEvent::Open
            }),
            final(self).wf(),
    {
        if self.selection_index < self.items.len() {
            let index = self.selection_index;
            let commands = self.m_x_active;
            let item = copy_range(&self.items[index], 0, self.items[index].len());
            assert(item@ =~= self@.items[index as int]);
            self.close();
            self.chosen = item;
            if commands {
                FzyEvent::Run(action_of_command(index))
            } else {
                FzyEvent::Open
            }
        } else {
            FzyEvent::Ignored
        }
    }

    /// Handles a key press while the finder is open; see
    /// `FzyModel::key` and `FzyModel::event`.
    pub fn handle_input(&mut self, key: Key) -> (event: FzyEvent)
        requires
            old(self).wf(),
        ensures
            final(self)@ == old(self)@.key(key),
            event == old(self)@.event(key),
            final(self).wf(),
    {
        match (key.mods, key.code) {
            (Modifiers::Control, KeyCode::Char('n')) => {
                self.select_next();
                FzyEvent::Moved
            },
            (Modifiers::Control, KeyCode::Char('j')) => {
                self.select_next();
                FzyEvent::Moved
            },
            (Modifiers::Control, KeyCode::Char('p')) => {
                self.select_previous();
                FzyEvent::Moved
            },
            (Modifiers::Control, KeyCode::Char('k')) => {
                self.select_previous();
                FzyEvent::Moved
            },
            (Modifiers::Plain, KeyCode::Down) => {
                self.select_next();
                FzyEvent::Moved
            },
            (Modifiers::Plain, KeyCode::Up) => {
                self.select_previous();
                FzyEvent::Moved
            },
            (Modifiers::Plain, KeyCode::Char(c)) => {
                self.input.push(c);
                FzyEvent::Refresh
            },
            (Modifiers::Plain, KeyCode::Backspace) => {
                if self.input.len() > 0 {
                    self.input.pop();
                }
                FzyEvent::Refresh
            },
            (Modifiers::Plain, KeyCode::Esc) => {
                self.close();
                FzyEvent::Closed
            },
            (Modifiers::Plain, KeyCode::Enter) => self.choose_item(),
            _ => FzyEvent::Ignored,
        }
    }
}

} // verus!
