//! Linear undo history: full snapshots of the document and its caret.

use vstd::prelude::*;
use crate::buffer::{Buffer, Cursor, Doc};
use crate::document::{copy_lines, same_lines, text_of};

verus! {

/// A stored copy of a document and its caret.
#[derive(Debug)]
pub struct Snapshot {
    pub lines: Vec<Vec<char>>,
    pub cursor: Cursor,
}

impl View for Snapshot {
    type V = Doc;

    open spec fn view(&self) -> Doc {
        Doc {
            lines: text_of(self.lines@),
            col: self.cursor.col as int,
            row: self.cursor.row as int,
        }
    }
}

/// The stored snapshots and the index of the current one.
#[derive(Debug)]
pub struct History {
    pub states: Vec<Snapshot>,
    pub index: usize,
}

/// The model of a history.
pub struct Past {
    pub states: Seq<Doc>,
    pub index: int,
}

impl View for History {
    type V = Past;

    open spec fn view(&self) -> Past {
        Past { states: Seq::new(self.states@.len(), |i: int| self.states@[i]@), index: self.index as int }
    }
}

/// The line that shows a history of `len` snapshots: one node for each,
/// the one at `index` marked, with a separator between neighbours.
pub open spec fn tree_display(len: int, index: int, node: char, current: char, sep: char) -> Seq<
    char,
> {
    Seq::new(
        (if len > 0 {
            2 * len - 1
        } else {
            0
        }) as nat,
        |k: int|
            if k % 2 == 1 {
                sep
            } else if k / 2 == index {
                current
            } else {
                node
            },
    )
}

impl Past {
    /// There is a current snapshot, and every snapshot is a document with
    /// its caret inside.
    pub open spec fn valid(self) -> bool {
        &&& 0 <= self.index < self.states.len()
        &&& forall|i: int| 0 <= i < self.states.len() ==> (#[trigger] self.states[i]).valid()
    }

    /// The current snapshot.
    pub open spec fn current(self) -> Doc {
        self.states[self.index]
    }

    /// The history after a snapshot of `live` is asked for. Nothing changes
    /// when the most recent stored snapshot equals `live`; otherwise the
    /// snapshots after the current one are dropped and `live` becomes the
    /// current, and last, snapshot.
    pub open spec fn snapshot(self, live: Doc) -> Past {
        if self.states.last() == live {
            self
        } else {
            Past { states: self.states.subrange(0, self.index + 1).push(live), index: self.index + 1 }
        }
    }

    /// Whether there is an older snapshot to go back to.
    pub open spec fn can_undo(self) -> bool {
        self.index > 0
    }

    /// Whether there is a newer snapshot to go forward to.
    pub open spec fn can_redo(self) -> bool {
        self.index + 1 < self.states.len()
    }

    /// One snapshot back, where there is one.
    pub open spec fn undo(self) -> Past {
        if self.can_undo() {
            Past { states: self.states, index: self.index - 1 }
        } else {
            self
        }
    }

    /// One snapshot forward, where there is one.
    pub open spec fn redo(self) -> Past {
        if self.can_redo() {
            Past { states: self.states, index: self.index + 1 }
        } else {
            self
        }
    }
}

impl Snapshot {
    /// A snapshot of `buffer`.
    pub fn of(buffer: &Buffer) -> (s: Snapshot)
        ensures
            s@ == buffer@,
    {
        Snapshot { lines: copy_lines(&buffer.lines), cursor: buffer.cursor }
    }

    /// Whether the snapshot equals the state of `buffer`.
    pub fn matches_buffer(&self, buffer: &Buffer) -> (same: bool)
        ensures
            same == (self@ == buffer@),
    {
        self.cursor.col == buffer.cursor.col && self.cursor.row == buffer.cursor.row && same_lines(
            &self.lines,
            &buffer.lines,
        )
    }
}

impl History {
    /// The history is valid; see `Past::valid`.
    pub open spec fn wf(&self) -> bool {
        self@.valid()
    }

    /// A history whose only snapshot is the state of `buffer`.
    pub fn new(buffer: &Buffer) -> (h: History)
        requires
            buffer.wf(),
        ensures
            h@.states == seq![buffer@],
            h@.index == 0,
            h.wf(),
    {
        let mut states: Vec<Snapshot> = Vec::new();
        states.push(Snapshot::of(buffer));
        let h = History { states, index: 0 };
        assert(h@.states =~= seq![buffer@]);
        h
    }

    /// The number of stored snapshots.
    pub fn len(&self) -> (n: usize)
        ensures
            n == self@.states.len(),
    {
        self.states.len()
    }

    /// Records the state of `buffer`; see `Past::snapshot`.
    pub fn snapshot(&mut self, buffer: &Buffer)
        requires
            old(self).wf(),
            buffer.wf(),
        ensures
            final(self)@ == old(self)@.snapshot(buffer@),
            final(self).wf(),
    {
        let count = self.states.len();
        assert(self@.states.last() == self.states@[count - 1]@);
        if !self.states[count - 1].matches_buffer(buffer) {
            self.states.truncate(self.index + 1);
            self.states.push(Snapshot::of(buffer));
            self.index = self.index + 1;
            assert(self@.states =~= old(self)@.states.subrange(0, old(self)@.index + 1).push(
                buffer@,
            ));
        }
    }

    /// Goes back one snapshot and restores it into `buffer`. Returns false,
    /// and changes nothing, at the oldest snapshot.
    pub fn undo(&mut self, buffer: &mut Buffer) -> (done: bool)
        requires
            old(self).wf(),
        ensures
            done == old(self)@.can_undo(),
            final(self)@ == old(self)@.undo(),
            done ==> final(buffer)@ == final(self)@.current(),
            !done ==> *final(buffer) == *old(buffer),
            final(self).wf(),
            done ==> final(buffer).wf(),
    {
        if self.index > 0 {
            self.index -= 1;
            assert(self@.states =~= old(self)@.states);
            assert(self@.states[self.index as int] == self.states@[self.index as int]@);
            buffer.lines = copy_lines(&self.states[self.index].lines);
            buffer.cursor = self.states[self.index].cursor;
            true
        } else {
            false
        }
    }

    /// Goes forward one snapshot and restores it into `buffer`. Returns
    /// false, and changes nothing, at the newest snapshot.
    pub fn redo(&mut self, buffer: &mut Buffer) -> (done: bool)
        requires
            old(self).wf(),
        ensures
            done == old(self)@.can_redo(),
            final(self)@ == old(self)@.redo(),
            done ==> final(buffer)@ == final(self)@.current(),
            !done ==> *final(buffer) == *old(buffer),
            final(self).wf(),
            done ==> final(buffer).wf(),
    {
        let count = self.states.len();
        if self.index + 1 < count {
            self.index += 1;
            assert(self@.states =~= old(self)@.states);
            assert(self@.states[self.index as int] == self.states@[self.index as int]@);
            buffer.lines = copy_lines(&self.states[self.index].lines);
            buffer.cursor = self.states[self.index].cursor;
            true
        } else {
            false
        }
    }

    /// The line that shows the history; see `tree_display`.
    pub fn display(&self, node: char, current: char, sep: char) -> (line: Vec<char>)
        ensures
            line@ == tree_display(self@.states.len() as int, self@.index, node, current, sep),
    {
        let mut line: Vec<char> = Vec::new();
        let count = self.states.len();
        let mut i: usize = 0;
        while i < count
            invariant
                i <= count,
                count == self.states.len(),
                line@ == tree_display(i as int, self.index as int, node, current, sep),
            decreases count - i,
        {
            if i > 0 {
                line.push(sep);
            }
            if i == self.index {
                line.push(current);
            } else {
                line.push(node);
            }
            i += 1;
            assert(line@ =~= tree_display(i as int, self.index as int, node, current, sep));
        }
        line
    }
}

/// Undoing right after a snapshot of an edit restores the state before the
/// edit: when the current snapshot is the state `before`, and the edited
/// state `after` differs from the most recent stored snapshot, a snapshot
/// of `after` followed by one undo makes `before` current again, with its
/// document and its caret.
pub proof fn lemma_undo_restores(past: Past, before: Doc, after: Doc)
    requires
        past.valid(),
        past.current() == before,
        past.states.last() != after,
    ensures
        past.snapshot(after).current() == after,
        past.snapshot(after).can_undo(),
        past.snapshot(after).undo().current() == before,
        past.snapshot(after).undo().index == past.index,
{
}

/// A second snapshot with nothing changed in between adds nothing: one
/// request stores at most one snapshot, and repeating it stores none.
pub proof fn lemma_snapshot_dedup(past: Past, live: Doc)
    requires
        past.valid(),
    ensures
        past.snapshot(live).snapshot(live) == past.snapshot(live),
        past.snapshot(live).states.len() <= past.states.len() + 1,
        past.snapshot(live).states.last() == live,
{
}

/// A snapshot after an undo drops every snapshot that could have been
/// redone: when it stores the new state, nothing is left to redo.
pub proof fn lemma_snapshot_truncates(past: Past, live: Doc)
    requires
        past.valid(),
        past.states.last() != live,
    ensures
        !past.snapshot(live).can_redo(),
        past.snapshot(live).states.len() == past.index + 2,
        forall|i: int| 0 <= i <= past.index ==> past.snapshot(live).states[i] == past.states[i],
{
}

/// Redo undoes an undo, and undo undoes a redo.
pub proof fn lemma_undo_redo(past: Past)
    requires
        past.valid(),
    ensures
        past.can_undo() ==> past.undo().redo() == past,
        past.can_redo() ==> past.redo().undo() == past,
{
}

} // verus!
