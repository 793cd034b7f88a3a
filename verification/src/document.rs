//! Documents as vectors of lines, their mathematical view, and the
//! conversions between a document and its serialized text.

use vstd::prelude::*;
use crate::text::{copy_range, push_all, same_chars};

verus! {

/// The contents of a vector of lines: a sequence of sequences of characters.
pub open spec fn text_of(lines: Seq<Vec<char>>) -> Seq<Seq<char>> {
    Seq::new(lines.len(), |i: int| lines[i]@)
}

/// The lines joined with one newline between neighbours.
pub open spec fn join_lines(lines: Seq<Seq<char>>) -> Seq<char>
    decreases lines.len(),
{
    if lines.len() == 0 {
        Seq::empty()
    } else if lines.len() == 1 {
        lines[0]
    } else {
        join_lines(lines.drop_last()) + seq!['\n'] + lines.last()
    }
}

/// The end of the line that starts at `from`: the index of the next newline
/// at or after `from`, or the length of `text`.
pub open spec fn line_end(text: Seq<char>, from: int) -> int
    decreases text.len() - from,
{
    if 0 <= from < text.len() && text[from] != '\n' {
        line_end(text, from + 1)
    } else {
        from
    }
}

/// The line of `text` that starts at `from`, without its terminator: a
/// carriage return just before the newline belongs to the terminator.
pub open spec fn line_at(text: Seq<char>, from: int) -> Seq<char> {
    let end = line_end(text, from);
    if end < text.len() && from < end && text[end - 1] == '\r' {
        text.subrange(from, end - 1)
    } else {
        text.subrange(from, end)
    }
}

/// The lines of `text` from index `from` on. Each newline ends a line; text
/// after the last newline is a line of its own when it is not empty.
pub open spec fn lines_from(text: Seq<char>, from: int) -> Seq<Seq<char>>
    decreases text.len() - from,
{
    if from < 0 || from >= text.len() {
        Seq::empty()
    } else {
        proof {
            lemma_line_end_bounds(text, from);
        }
        let end = line_end(text, from);
        if end < text.len() {
            seq![line_at(text, from)] + lines_from(text, end + 1)
        } else {
            seq![line_at(text, from)]
        }
    }
}

/// The document that a file's text opens as: its lines, or one empty line
/// when the text holds none.
pub open spec fn parse_document(text: Seq<char>) -> Seq<Seq<char>> {
    if lines_from(text, 0).len() == 0 {
        seq![Seq::<char>::empty()]
    } else {
        lines_from(text, 0)
    }
}

pub proof fn lemma_line_end_bounds(text: Seq<char>, from: int)
    requires
        0 <= from <= text.len(),
    ensures
        from <= line_end(text, from) <= text.len(),
    decreases text.len() - from,
{
    if from < text.len() && text[from] != '\n' {
        lemma_line_end_bounds(text, from + 1);
    }
}

/// Replaces the line at `row`.
pub fn set_line(lines: &mut Vec<Vec<char>>, row: usize, line: Vec<char>)
    requires
        row < old(lines).len(),
    ensures
        text_of(final(lines)@) == text_of(old(lines)@).update(row as int, line@),
        final(lines).len() == old(lines).len(),
{
    lines[row] = line;
    assert(text_of(lines@) =~= text_of(old(lines)@).update(row as int, line@));
}

/// Inserts `line` so that it becomes the line at `row`.
pub fn insert_line(lines: &mut Vec<Vec<char>>, row: usize, line: Vec<char>)
    requires
        row <= old(lines).len(),
    ensures
        text_of(final(lines)@) == text_of(old(lines)@).insert(row as int, line@),
        final(lines).len() == old(lines).len() + 1,
{
    lines.insert(row, line);
    assert(text_of(lines@) =~= text_of(old(lines)@).insert(row as int, line@));
}

/// Removes and returns the line at `row`.
pub fn remove_line(lines: &mut Vec<Vec<char>>, row: usize) -> (line: Vec<char>)
    requires
        row < old(lines).len(),
    ensures
        text_of(final(lines)@) == text_of(old(lines)@).remove(row as int),
        line@ == text_of(old(lines)@)[row as int],
        final(lines).len() == old(lines).len() - 1,
{
    let line = lines.remove(row);
    assert(text_of(lines@) =~= text_of(old(lines)@).remove(row as int));
    line
}

/// A copy of a document's lines.
pub fn copy_lines(src: &Vec<Vec<char>>) -> (out: Vec<Vec<char>>)
    ensures
        text_of(out@) == text_of(src@),
{
    let mut out: Vec<Vec<char>> = Vec::new();
    let mut i: usize = 0;
    while i < src.len()
        invariant
            i <= src.len(),
            out.len() == i,
            forall|j: int| 0 <= j < i ==> out@[j]@ == src@[j]@,
        decreases src.len() - i,
    {
        let line = copy_range(&src[i], 0, src[i].len());
        assert(line@ =~= src@[i as int]@);
        out.push(line);
        i += 1;
    }
    assert(text_of(out@) =~= text_of(src@));
    out
}

/// Whether two documents hold the same lines.
pub fn same_lines(a: &Vec<Vec<char>>, b: &Vec<Vec<char>>) -> (r: bool)
    ensures
        r == (text_of(a@) == text_of(b@)),
{
    if a.len() != b.len() {
        assert(text_of(a@).len() != text_of(b@).len());
        return false;
    }
    let mut i: usize = 0;
    while i < a.len()
        invariant
            i <= a.len(),
            a.len() == b.len(),
            forall|j: int| 0 <= j < i ==> a@[j]@ == b@[j]@,
        decreases a.len() - i,
    {
        if !same_chars(&a[i], &b[i]) {
            assert(text_of(a@)[i as int] != text_of(b@)[i as int]);
            return false;
        }
        i += 1;
    }
    assert(text_of(a@) =~= text_of(b@));
    true
}

/// Serializes a document: its lines with one newline between neighbours.
pub fn serialize(lines: &Vec<Vec<char>>) -> (out: Vec<char>)
    ensures
        out@ == join_lines(text_of(lines@)),
{
    let mut out: Vec<char> = Vec::new();
    let mut i: usize = 0;
    while i < lines.len()
        invariant
            i <= lines.len(),
            out@ == join_lines(text_of(lines@).subrange(0, i as int)),
        decreases lines.len() - i,
    {
        let ghost before = text_of(lines@).subrange(0, i as int);
        let ghost after = text_of(lines@).subrange(0, i + 1);
        assert(after.drop_last() =~= before);
        assert(after.last() == lines@[i as int]@);
        if i > 0 {
            out.push('\n');
        }
        push_all(&mut out, &lines[i]);
        i += 1;
        assert(out@ =~= join_lines(after));
    }
    assert(text_of(lines@).subrange(0, lines.len() as int) =~= text_of(lines@));
    out
}

/// Splits a file's text into the lines of a document.
pub fn parse_lines(text: &Vec<char>) -> (lines: Vec<Vec<char>>)
    ensures
        text_of(lines@) == parse_document(text@),
        lines.len() >= 1,
{
    let mut lines: Vec<Vec<char>> = Vec::new();
    let mut from: usize = 0;
    let mut done: bool = false;
    while !done && from < text.len()
        invariant
            from <= text.len(),
            text_of(lines@) + (if done {
                Seq::<Seq<char>>::empty()
            } else {
                lines_from(text@, from as int)
            }) == lines_from(text@, 0),
        decreases text.len() - from + (if done { 0int } else { 1int }),
    {
        let mut end: usize = from;
        while end < text.len() && text[end] != '\n'
            invariant
                from <= end <= text.len(),
                line_end(text@, from as int) == line_end(text@, end as int),
            decreases text.len() - end,
        {
            end += 1;
        }
        let stop: usize = if end < text.len() && from < end && text[end - 1] == '\r' {
            end - 1
        } else {
            end
        };
        let line = copy_range(text, from, stop);
        let ghost before = text_of(lines@);
        lines.push(line);
        assert(text_of(lines@) =~= before + seq![line_at(text@, from as int)]);
        if end < text.len() {
            assert(text_of(lines@) + lines_from(text@, end + 1) =~= before + lines_from(
                text@,
                from as int,
            ));
            from = end + 1;
        } else {
            assert(text_of(lines@) =~= before + lines_from(text@, from as int));
            done = true;
        }
    }
    assert(text_of(lines@) =~= lines_from(text@, 0));
    if lines.len() == 0 {
        lines.push(Vec::new());
        assert(text_of(lines@) =~= seq![Seq::<char>::empty()]);
    }
    lines
}

} // verus!
