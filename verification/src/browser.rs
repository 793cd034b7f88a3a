//! The cursor of the directory browser.
//!
//! The browser shows the directory itself, its parent, and then the
//! entries; the cursor counts these rows from zero.

use vstd::prelude::*;
use crate::document::{copy_lines, text_of};
use crate::keys::{Key, KeyCode};
use crate::text::same_chars;

verus! {

/// What the host is to do after the browser has seen a key.
#[derive(Clone, Copy, Debug, PartialEq, Eq, Structural)]
pub enum BrowseEvent {
    /// Nothing.
    Ignored,
    /// The cursor moved, or stayed at an end of the list.
    Moved,
    /// Go to the parent directory and put the cursor on the directory
    /// that was left.
    Leave,
    /// Go to the parent directory.
    Parent,
    /// Enter the directory, or open the file, at this index of the
    /// entries.
    Enter(usize),
    /// Ask whether to delete the entry at this index.
    AskDelete(usize),
    /// Ask for a new name for the entry at this index.
    AskRename(usize),
}

/// The names of a directory's entries and the cursor over them.
#[derive(Debug)]
pub struct Browser {
    pub entries: Vec<Vec<char>>,
    pub cursor_pos: usize,
}

/// The model of a browser.
pub struct Listing {
    pub entries: Seq<Seq<char>>,
    pub cursor: int,
}

impl View for Browser {
    type V = Listing;

    open spec fn view(&self) -> Listing {
        Listing { entries: text_of(self.entries@), cursor: self.cursor_pos as int }
    }
}

/// The first index at or after `from` at which `names` holds `name`, or
/// the length of `names`.
pub open spec fn index_of(names: Seq<Seq<char>>, name: Seq<char>, from: int) -> int
    decreases names.len() - from,
{
    if 0 <= from < names.len() && names[from] != name {
        index_of(names, name, from + 1)
    } else {
        from
    }
}

/// The row on which a browser opens: the row of the entry named by
/// `focus`, where there is one; else the first entry's row, or row zero in
/// an empty directory.
pub open spec fn opening_row(names: Seq<Seq<char>>, focus: Option<Seq<char>>) -> int {
    let first = if names.len() == 0 {
        0
    } else {
        2
    };
    match focus {
        Some(name) => if index_of(names, name, 0) < names.len() {
            index_of(names, name, 0) + 2
        } else {
            first
        },
        None => first,
    }
}

impl Listing {
    /// The cursor is on one of the rows.
    pub open spec fn valid(self) -> bool {
        0 <= self.cursor <= self.entries.len() + 1
    }

    /// The index of the entry under the cursor, when the cursor is on an
    /// entry.
    pub open spec fn selected(self) -> Option<usize> {
        if 2 <= self.cursor < self.entries.len() + 2 {
            Some((self.cursor - 2) as usize)
        } else {
            None
        }
    }

    /// One row down, unless on the last row.
    pub open spec fn down(self) -> Listing {
        if self.cursor < self.entries.len() + 1 {
            Listing { cursor: self.cursor + 1, ..self }
        } else {
            self
        }
    }

    /// One row up, unless on the first row.
    pub open spec fn up(self) -> Listing {
        if self.cursor > 0 {
            Listing { cursor: self.cursor - 1, ..self }
        } else {
            self
        }
    }

    /// The listing after the directory was read again. After a deletion a
    /// cursor that is left below the last entry goes one row up; a cursor
    /// that is still below the rows goes to the last row.
    pub open spec fn relisted(self, names: Seq<Seq<char>>, deleted: bool) -> Listing {
        let cursor = if deleted && self.cursor >= names.len() + 2 {
            self.cursor - 1
        } else {
            self.cursor
        };
        Listing {
            entries: names,
            cursor: if cursor > names.len() + 1 {
                names.len() as int + 1
            } else {
                cursor
            },
        }
    }

    /// The listing after a key press.
    pub open spec fn key(self, key: Key) -> Listing {
        match key.code {
            KeyCode::Char('j') => self.down(),
            KeyCode::Down => self.down(),
            KeyCode::Char('k') => self.up(),
            KeyCode::Up => self.up(),
            _ => self,
        }
    }

    /// What the host is to do when the entry under the cursor is entered.
    pub open spec fn entering(self) -> BrowseEvent {
        if self.cursor == 0 {
            BrowseEvent::Ignored
        } else if self.cursor == 1 {
            BrowseEvent::Parent
        } else {
            match self.selected() {
                Some(i) => BrowseEvent::Enter(i),
                None => BrowseEvent::Ignored,
            }
        }
    }

    /// What the host is to do after a key press.
    pub open spec fn event(self, key: Key) -> BrowseEvent {
        match key.code {
            KeyCode::Char('j') => BrowseEvent::Moved,
            KeyCode::Down => BrowseEvent::Moved,
            KeyCode::Char('k') => BrowseEvent::Moved,
            KeyCode::Up => BrowseEvent::Moved,
            KeyCode::Char('h') => BrowseEvent::Leave,
            KeyCode::Left => BrowseEvent::Leave,
            KeyCode::Char('l') => self.entering(),
            KeyCode::Right => self.entering(),
            KeyCode::Enter => self.entering(),
            KeyCode::Char('D') => match self.selected() {
                Some(i) => BrowseEvent::AskDelete(i),
                None => BrowseEvent::Ignored,
            },
            KeyCode::Char('r') => match self.selected() {
                Some(i) => BrowseEvent::AskRename(i),
                None => BrowseEvent::Ignored,
            },
            _ => BrowseEvent::Ignored,
        }
    }
}

impl Browser {
    /// The cursor is on one of the rows, and the rows can be counted.
    pub open spec fn wf(&self) -> bool {
        self@.valid() && self@.entries.len() + 2 <= usize::MAX
    }

    /// A browser over the entries `names`; see `opening_row`.
    pub fn new(names: &Vec<Vec<char>>, focus: Option<&Vec<char>>) -> (b: Browser)
        requires
            names.len() + 2 <= usize::MAX,
        ensures
            b@.entries == text_of(names@),
            b@.cursor == opening_row(
                text_of(names@),
                match focus {
                    Some(f) => Some(f@),
                    None => None,
                },
            ),
            b.wf(),
    {
        let mut cursor_pos: usize = if names.len() == 0 {
            0
        } else {
            2
        };
        match focus {
            Some(name) => {
                let mut i: usize = 0;
                while i < names.len() && !same_chars(&names[i], name)
                    invariant
                        i <= names.len(),
                        index_of(text_of(names@), name@, 0) == index_of(
                            text_of(names@),
                            name@,
                            i as int,
                        ),
                    decreases names.len() - i,
                {
                    i += 1;
                }
                if i < names.len() {
                    cursor_pos = i + 2;
                }
            },
            None => {},
        }
        Browser { entries: copy_lines(names), cursor_pos }
    }

    /// The index of the entry under the cursor; see `Listing::selected`.
    pub fn selected(&self) -> (index: Option<usize>)
        ensures
            index == self@.selected(),
    {
        if self.cursor_pos >= 2 && self.cursor_pos - 2 < self.entries.len() {
            Some(self.cursor_pos - 2)
        } else {
            None
        }
    }

    /// Takes over the entries after the directory was read again; see
    /// `Listing::relisted`.
    pub fn relist(&mut self, names: &Vec<Vec<char>>, deleted: bool)
        requires
            names.len() + 2 <= usize::MAX,
        ensures
            final(self)@ == old(self)@.relisted(text_of(names@), deleted),
            final(self).wf(),
    {
        self.entries = copy_lines(names);
        if deleted && self.cursor_pos >= 2 && self.cursor_pos - 2 >= names.len() {
            self.cursor_pos -= 1;
        }
        if self.cursor_pos > names.len() + 1 {
            self.cursor_pos = names.len() + 1;
        }
    }

    /// Whether the cursor is on one of the rows and the rows can be
    /// counted.
    pub fn is_valid(&self) -> (ok: bool)
        ensures
            ok == self.wf(),
    {
        self.entries.len() <= usize::MAX - 2 && self.cursor_pos <= self.entries.len() + 1
    }

    /// What the host is to do when the entry under the cursor is entered.
    fn enter(&self) -> (event: BrowseEvent)
        ensures
            event == self@.entering(),
    {
        if self.cursor_pos == 0 {
            BrowseEvent::Ignored
        } else if self.cursor_pos == 1 {
            BrowseEvent::Parent
        } else {
            match self.selected() {
                Some(i) => BrowseEvent::Enter(i),
                None => BrowseEvent::Ignored,
            }
        }
    }

    /// Handles a key press in the browser; see `Listing::key` and
    /// `Listing::event`.
    pub fn handle_key(&mut self, key: Key) -> (event: BrowseEvent)
        requires
            old(self).wf(),
        ensures
            final(self)@ == old(self)@.key(key),
            event == old(self)@.event(key),
            final(self).wf(),
    {
        match key.code {
            KeyCode::Char('j') => {
                self.move_down();
                BrowseEvent::Moved
            },
            KeyCode::Down => {
                self.move_down();
                BrowseEvent::Moved
            },
            KeyCode::Char('k') => {
                self.move_up();
                BrowseEvent::Moved
            },
            KeyCode::Up => {
                self.move_up();
                BrowseEvent::Moved
            },
            KeyCode::Char('h') => BrowseEvent::Leave,
            KeyCode::Left => BrowseEvent::Leave,
            KeyCode::Char('l') => self.enter(),
            KeyCode::Right => self.enter(),
            KeyCode::Enter => self.enter(),
            KeyCode::Char('D') => match self.selected() {
                Some(i) => BrowseEvent::AskDelete(i),
                None => BrowseEvent::Ignored,
            },
            KeyCode::Char('r') => match self.selected() {
                Some(i) => BrowseEvent::AskRename(i),
                None => BrowseEvent::Ignored,
            },
            _ => BrowseEvent::Ignored,
        }
    }

    /// One row down, unless on the last row.
    pub fn move_down(&mut self)
        requires
            old(self).wf(),
        ensures
            final(self)@ == old(self)@.down(),
            final(self).wf(),
    {
        if self.cursor_pos <= self.entries.len() {
            self.cursor_pos += 1;
        }
    }

    /// One row up, unless on the first row.
    pub fn move_up(&mut self)
        requires
            old(self).wf(),
        ensures
            final(self)@ == old(self)@.up(),
            final(self).wf(),
    {
        if self.cursor_pos > 0 {
            self.cursor_pos -= 1;
        }
    }
}

} // verus!
