//! Literal, case-sensitive search for the next or previous occurrence of a
//! query, with wraparound.
//!
//! Positions are ordered by row, then by column. An empty query occurs
//! nowhere.

use vstd::prelude::*;
use crate::buffer::{Buffer, Cursor, Pos};
use crate::document::text_of;

verus! {

/// Whether `query` occurs in `line` starting at column `col`.
pub open spec fn line_match(line: Seq<char>, query: Seq<char>, col: int) -> bool {
    &&& query.len() > 0
    &&& 0 <= col
    &&& col + query.len() <= line.len()
    &&& line.subrange(col, col + query.len()) == query
}

/// Whether `query` occurs in the document starting at `p`.
pub open spec fn match_at(lines: Seq<Seq<char>>, query: Seq<char>, p: Pos) -> bool {
    &&& 0 <= p.row < lines.len()
    &&& line_match(lines[p.row], query, p.col)
}

/// `a` comes strictly before `b` in document order.
pub open spec fn pos_lt(a: Pos, b: Pos) -> bool {
    a.row < b.row || (a.row == b.row && a.col < b.col)
}

/// `a` comes before `b` in document order, or is `b`.
pub open spec fn pos_le(a: Pos, b: Pos) -> bool {
    a.row < b.row || (a.row == b.row && a.col <= b.col)
}

/// No occurrence starts strictly between `a` and `b`.
pub open spec fn none_between(lines: Seq<Seq<char>>, query: Seq<char>, a: Pos, b: Pos) -> bool {
    forall|x: Pos| pos_lt(a, x) && pos_lt(x, b) ==> !#[trigger] match_at(lines, query, x)
}

/// No occurrence starts strictly after `a`.
pub open spec fn none_after(lines: Seq<Seq<char>>, query: Seq<char>, a: Pos) -> bool {
    forall|x: Pos| pos_lt(a, x) ==> !#[trigger] match_at(lines, query, x)
}

/// No occurrence starts strictly before `b`.
pub open spec fn none_before(lines: Seq<Seq<char>>, query: Seq<char>, b: Pos) -> bool {
    forall|x: Pos| pos_lt(x, b) ==> !#[trigger] match_at(lines, query, x)
}

/// `query` occurs nowhere in the document.
pub open spec fn no_match(lines: Seq<Seq<char>>, query: Seq<char>) -> bool {
    forall|x: Pos| !#[trigger] match_at(lines, query, x)
}

/// `p` is the first occurrence in the document.
pub open spec fn is_first_match(lines: Seq<Seq<char>>, query: Seq<char>, p: Pos) -> bool {
    match_at(lines, query, p) && none_before(lines, query, p)
}

/// `p` is the last occurrence in the document.
pub open spec fn is_last_match(lines: Seq<Seq<char>>, query: Seq<char>, p: Pos) -> bool {
    match_at(lines, query, p) && none_after(lines, query, p)
}

/// What a forward search from `cur` must give. `Some(false)`: `p` is the
/// first occurrence after `cur`. `Some(true)`: nothing occurs after `cur`,
/// and `p` is the first occurrence in the document. `None`: nothing occurs
/// anywhere, and `p` is `cur`.
pub open spec fn next_match(
    lines: Seq<Seq<char>>,
    query: Seq<char>,
    cur: Pos,
    p: Pos,
    outcome: Option<bool>,
) -> bool {
    match outcome {
        Some(wrapped) => if wrapped {
            none_after(lines, query, cur) && is_first_match(lines, query, p)
        } else {
            match_at(lines, query, p) && pos_lt(cur, p) && none_between(lines, query, cur, p)
        },
        None => no_match(lines, query) && p == cur,
    }
}

/// What a backward search from `cur` must give. `Some(false)`: `p` is the
/// last occurrence before `cur`. `Some(true)`: nothing occurs before `cur`,
/// and `p` is the last occurrence in the document. `None`: nothing occurs
/// anywhere, and `p` is `cur`.
pub open spec fn previous_match(
    lines: Seq<Seq<char>>,
    query: Seq<char>,
    cur: Pos,
    p: Pos,
    outcome: Option<bool>,
) -> bool {
    match outcome {
        Some(wrapped) => if wrapped {
            none_before(lines, query, cur) && is_last_match(lines, query, p)
        } else {
            match_at(lines, query, p) && pos_lt(p, cur) && none_between(lines, query, p, cur)
        },
        None => no_match(lines, query) && p == cur,
    }
}

/// Where a search ends and how: the caret's new position, and whether the
/// search wrapped, or nothing when the query occurs nowhere.
pub struct Hit {
    pub at: Pos,
    pub outcome: Option<bool>,
}

/// The result of a forward search from `cur`: the one that meets
/// `next_match`.
pub open spec fn next_hit(lines: Seq<Seq<char>>, query: Seq<char>, cur: Pos) -> Hit {
    choose|h: Hit| next_match(lines, query, cur, h.at, h.outcome)
}

/// The result of a backward search from `cur`: the one that meets
/// `previous_match`.
pub open spec fn previous_hit(lines: Seq<Seq<char>>, query: Seq<char>, cur: Pos) -> Hit {
    choose|h: Hit| previous_match(lines, query, cur, h.at, h.outcome)
}

/// Whether `query` occurs in `line` at column `col`.
pub fn occurs_at(line: &Vec<char>, query: &Vec<char>, col: usize) -> (found: bool)
    ensures
        found == line_match(line@, query@, col as int),
{
    let n = query.len();
    if n == 0 || col > line.len() || line.len() - col < n {
        return false;
    }
    let mut k: usize = 0;
    while k < n
        invariant
            k <= n,
            n == query.len(),
            n > 0,
            col + n <= line.len(),
            forall|j: int| 0 <= j < k ==> line@[col + j] == query@[j],
        decreases n - k,
    {
        if line[col + k] != query[k] {
            assert(line@.subrange(col as int, col + n)[k as int] != query@[k as int]);
            return false;
        }
        k += 1;
    }
    assert(line@.subrange(col as int, col + n) =~= query@);
    true
}

/// The first occurrence of `query` in `line` at or after column `from`.
pub fn find_in_line(line: &Vec<char>, query: &Vec<char>, from: usize) -> (at: Option<usize>)
    ensures
        at is Some ==> from <= at->0 && line_match(line@, query@, at->0 as int),
        at is Some ==> forall|c: int| from <= c < at->0 ==> !line_match(line@, query@, c),
        at is None ==> forall|c: int| from <= c ==> !line_match(line@, query@, c),
{
    let mut c: usize = from;
    while c < line.len()
        invariant
            from <= c,
            forall|x: int| from <= x < c ==> !line_match(line@, query@, x),
        decreases line.len() - c,
    {
        if occurs_at(line, query, c) {
            return Some(c);
        }
        c += 1;
    }
    None
}

/// The last occurrence of `query` in `line` that starts before column
/// `before`.
pub fn rfind_in_line(line: &Vec<char>, query: &Vec<char>, before: usize) -> (at: Option<usize>)
    ensures
        at is Some ==> at->0 < before && line_match(line@, query@, at->0 as int),
        at is Some ==> forall|c: int| at->0 < c < before ==> !line_match(line@, query@, c),
        at is None ==> forall|c: int| c < before ==> !line_match(line@, query@, c),
{
    let top: usize = if before <= line.len() {
        before
    } else {
        line.len()
    };
    let mut c: usize = top;
    while c > 0
        invariant
            c <= top <= before,
            top == before || top == line.len(),
            forall|x: int| c <= x < before ==> !line_match(line@, query@, x),
        decreases c,
    {
        c -= 1;
        if occurs_at(line, query, c) {
            return Some(c);
        }
    }
    None
}

/// The first occurrence of `query` in the rows `from..to`.
pub fn find_in_rows(lines: &Vec<Vec<char>>, query: &Vec<char>, from: usize, to: usize) -> (at: Option<
    Cursor,
>)
    requires
        from <= to <= lines.len(),
    ensures
        at is Some ==> from <= at->0.row < to && match_at(text_of(lines@), query@, at->0@),
        at is Some ==> forall|x: Pos|
            from <= x.row && pos_lt(x, at->0@) ==> !#[trigger] match_at(text_of(lines@), query@, x),
        at is None ==> forall|x: Pos|
            from <= x.row < to ==> !#[trigger] match_at(text_of(lines@), query@, x),
{
    let mut row: usize = from;
    while row < to
        invariant
            from <= row <= to <= lines.len(),
            forall|x: Pos|
                from <= x.row < row ==> !#[trigger] match_at(text_of(lines@), query@, x),
        decreases to - row,
    {
        match find_in_line(&lines[row], query, 0) {
            Some(col) => {
                return Some(Cursor { col, row });
            },
            None => {},
        }
        row += 1;
    }
    None
}

/// The last occurrence of `query` in the rows `from..to`.
pub fn rfind_in_rows(lines: &Vec<Vec<char>>, query: &Vec<char>, from: usize, to: usize) -> (at: Option<
    Cursor,
>)
    requires
        from <= to <= lines.len(),
    ensures
        at is Some ==> from <= at->0.row < to && match_at(text_of(lines@), query@, at->0@),
        at is Some ==> forall|x: Pos|
            x.row < to && pos_lt(at->0@, x) ==> !#[trigger] match_at(text_of(lines@), query@, x),
        at is None ==> forall|x: Pos|
            from <= x.row < to ==> !#[trigger] match_at(text_of(lines@), query@, x),
{
    let mut row: usize = to;
    while row > from
        invariant
            from <= row <= to <= lines.len(),
            forall|x: Pos| row <= x.row < to ==> !#[trigger] match_at(text_of(lines@), query@, x),
        decreases row,
    {
        row -= 1;
        let len = lines[row].len();
        match rfind_in_line(&lines[row], query, len) {
            Some(col) => {
                return Some(Cursor { col, row });
            },
            None => {},
        }
    }
    None
}

impl Buffer {
    /// Moves the caret to the next occurrence of `query`: the first one
    /// after the caret, or, when there is none, the first one in the
    /// document. Returns whether the search wrapped, or nothing when the
    /// query occurs nowhere; the caret then stays. See `next_match`.
    pub fn search_next(&mut self, query: &Vec<char>) -> (outcome: Option<bool>)
        requires
            old(self).wf(),
        ensures
            final(self)@.lines == old(self)@.lines,
            next_match(old(self)@.lines, query@, old(self)@.caret(), final(self)@.caret(), outcome),
            final(self).wf(),
    {
        let row = self.cursor.row;
        let col = self.cursor.col;
        let count = self.lines.len();
        let ghost lines = self@.lines;
        let ghost cur = self@.caret();
        if col < self.lines[row].len() {
            match find_in_line(&self.lines[row], query, col + 1) {
                Some(c) => {
                    self.cursor.col = c;
                    return Some(false);
                },
                None => {},
            }
        }
        assert forall|x: Pos| x.row == row && x.col > col implies !#[trigger] match_at(
            lines,
            query@,
            x,
        ) by {}
        match find_in_rows(&self.lines, query, row + 1, count) {
            Some(p) => {
                self.cursor = p;
                return Some(false);
            },
            None => {},
        }
        assert(none_after(lines, query@, cur));
        match find_in_rows(&self.lines, query, 0, count) {
            Some(p) => {
                self.cursor = p;
                Some(true)
            },
            None => None,
        }
    }

    /// Moves the caret to the previous occurrence of `query`: the last one
    /// before the caret, or, when there is none, the last one in the
    /// document. Returns whether the search wrapped, or nothing when the
    /// query occurs nowhere; the caret then stays. See `previous_match`.
    pub fn search_previous(&mut self, query: &Vec<char>) -> (outcome: Option<bool>)
        requires
            old(self).wf(),
        ensures
            final(self)@.lines == old(self)@.lines,
            previous_match(
                old(self)@.lines,
                query@,
                old(self)@.caret(),
                final(self)@.caret(),
                outcome,
            ),
            final(self).wf(),
    {
        let row = self.cursor.row;
        let col = self.cursor.col;
        let count = self.lines.len();
        let ghost lines = self@.lines;
        let ghost cur = self@.caret();
        match rfind_in_line(&self.lines[row], query, col) {
            Some(c) => {
                self.cursor.col = c;
                return Some(false);
            },
            None => {},
        }
        match rfind_in_rows(&self.lines, query, 0, row) {
            Some(p) => {
                self.cursor = p;
                return Some(false);
            },
            None => {},
        }
        assert(none_before(lines, query@, cur));
        match rfind_in_rows(&self.lines, query, 0, count) {
            Some(p) => {
                self.cursor = p;
                Some(true)
            },
            None => None,
        }
    }
}

/// A forward search from the last occurrence in the document wraps to the
/// first occurrence.
pub proof fn lemma_next_wraps_to_first(
    lines: Seq<Seq<char>>,
    query: Seq<char>,
    cur: Pos,
    p: Pos,
    outcome: Option<bool>,
)
    requires
        is_last_match(lines, query, cur),
        next_match(lines, query, cur, p, outcome),
    ensures
        outcome == Some(true),
        is_first_match(lines, query, p),
{
}

/// A backward search from the first occurrence in the document wraps to
/// the last occurrence.
pub proof fn lemma_previous_wraps_to_last(
    lines: Seq<Seq<char>>,
    query: Seq<char>,
    cur: Pos,
    p: Pos,
    outcome: Option<bool>,
)
    requires
        is_first_match(lines, query, cur),
        previous_match(lines, query, cur, p, outcome),
    ensures
        outcome == Some(true),
        is_last_match(lines, query, p),
{
}

/// The outcome of a forward search is determined: two results that both
/// meet `next_match` agree.
pub proof fn lemma_next_match_unique(
    lines: Seq<Seq<char>>,
    query: Seq<char>,
    cur: Pos,
    p1: Pos,
    o1: Option<bool>,
    p2: Pos,
    o2: Option<bool>,
)
    requires
        next_match(lines, query, cur, p1, o1),
        next_match(lines, query, cur, p2, o2),
    ensures
        o1 == o2,
        p1 == p2,
{
    if o1 is Some && o2 is Some {
        assert(match_at(lines, query, p1));
        assert(match_at(lines, query, p2));
        assert(!pos_lt(p1, p2));
        assert(!pos_lt(p2, p1));
    }
}

/// The outcome of a backward search is determined: two results that both
/// meet `previous_match` agree.
pub proof fn lemma_previous_match_unique(
    lines: Seq<Seq<char>>,
    query: Seq<char>,
    cur: Pos,
    p1: Pos,
    o1: Option<bool>,
    p2: Pos,
    o2: Option<bool>,
)
    requires
        previous_match(lines, query, cur, p1, o1),
        previous_match(lines, query, cur, p2, o2),
    ensures
        o1 == o2,
        p1 == p2,
{
    if o1 is Some && o2 is Some {
        assert(match_at(lines, query, p1));
        assert(match_at(lines, query, p2));
        assert(!pos_lt(p1, p2));
        assert(!pos_lt(p2, p1));
    }
}

/// A result that meets `next_match` is the result of the forward search.
pub proof fn lemma_next_hit(lines: Seq<Seq<char>>, query: Seq<char>, cur: Pos, h: Hit)
    requires
        next_match(lines, query, cur, h.at, h.outcome),
    ensures
        next_hit(lines, query, cur) == h,
{
    let g = next_hit(lines, query, cur);
    lemma_next_match_unique(lines, query, cur, h.at, h.outcome, g.at, g.outcome);
}

/// A result that meets `previous_match` is the result of the backward
/// search.
pub proof fn lemma_previous_hit(lines: Seq<Seq<char>>, query: Seq<char>, cur: Pos, h: Hit)
    requires
        previous_match(lines, query, cur, h.at, h.outcome),
    ensures
        previous_hit(lines, query, cur) == h,
{
    let g = previous_hit(lines, query, cur);
    lemma_previous_match_unique(lines, query, cur, h.at, h.outcome, g.at, g.outcome);
}

} // verus!
