//! Laws that relate several operations of the buffer.

use vstd::prelude::*;
use crate::buffer::{has_pos, lemma_split_newlines_len, newline_free, spliced_lines, split_newlines, Doc, Pos};
use crate::selection::{span_start, text_between, whole_lines};
use crate::session::Session;

verus! {

/// An edit of the document at the caret.
pub enum Edit {
    Insert(char),
    Backspace,
    Delete,
    Split,
    Join,
}

impl Doc {
    /// The document after one edit.
    pub open spec fn edit(self, e: Edit, pair: bool) -> Doc {
        match e {
            Edit::Insert(c) => self.insert_char(c, pair),
            Edit::Backspace => self.backspace(pair),
            Edit::Delete => self.delete_at_cursor(),
            Edit::Split => self.split_line_at_cursor(),
            Edit::Join => self.join_next_line(),
        }
    }

    /// The document after a sequence of edits, the first one first.
    pub open spec fn edit_all(self, edits: Seq<Edit>, pair: bool) -> Doc
        decreases edits.len(),
    {
        if edits.len() == 0 {
            self
        } else {
            self.edit_all(edits.drop_last(), pair).edit(edits.last(), pair)
        }
    }
}

/// One edit keeps the caret in the document.
pub proof fn lemma_edit_keeps_caret_in_document(doc: Doc, e: Edit, pair: bool)
    requires
        doc.valid(),
    ensures
        doc.edit(e, pair).valid(),
{
}

/// Through every sequence of insertions, deletions, splits and joins the
/// caret stays in the document: after each edit its row is a row of the
/// document and its column is at most the length of that row's line.
pub proof fn lemma_edits_keep_caret_in_document(doc: Doc, edits: Seq<Edit>, pair: bool)
    requires
        doc.valid(),
    ensures
        forall|n: int|
            0 <= n <= edits.len() ==> {
                let d = #[trigger] doc.edit_all(edits.subrange(0, n), pair);
                &&& 0 <= d.row < d.lines.len()
                &&& 0 <= d.col <= d.lines[d.row].len()
            },
{
    assert forall|n: int| 0 <= n <= edits.len() implies (#[trigger] doc.edit_all(
        edits.subrange(0, n),
        pair,
    )).valid() by {
        lemma_edit_all_valid(doc, edits.subrange(0, n), pair);
    }
}

/// A sequence of edits keeps the caret in the document.
pub proof fn lemma_edit_all_valid(doc: Doc, edits: Seq<Edit>, pair: bool)
    requires
        doc.valid(),
    ensures
        doc.edit_all(edits, pair).valid(),
    decreases edits.len(),
{
    if edits.len() > 0 {
        lemma_edit_all_valid(doc, edits.drop_last(), pair);
        lemma_edit_keeps_caret_in_document(doc.edit_all(edits.drop_last(), pair), edits.last(), pair);
    }
}

/// Undoing right after the snapshot of an edit brings back the document
/// and the caret from before the edit: when the live state was the
/// current snapshot, and the edited state differs from the most recent
/// stored snapshot, then after the edit, a snapshot and an undo, the live
/// state is the one from before the edit.
pub proof fn lemma_undo_after_edit(s: Session, edited: Doc)
    requires
        s.valid(),
        s.past.current() == s.doc,
        s.past.states.last() != edited,
    ensures
        s.moved(edited).snapshot().undo().doc == s.doc,
        s.moved(edited).snapshot().undo().past.index == s.past.index,
{
}

/// A text without newlines is one piece.
pub proof fn lemma_split_clean(text: Seq<char>)
    requires
        newline_free(text),
    ensures
        split_newlines(text) == seq![text],
    decreases text.len(),
{
    if text.len() > 0 {
        lemma_split_clean(text.drop_last());
        assert(text.drop_last().push(text.last()) =~= text);
        assert(seq![text.drop_last()].update(0, text) =~= seq![text]);
    } else {
        assert(text =~= Seq::<char>::empty());
    }
}

/// Text without newlines, added at the end, continues the last piece.
pub proof fn lemma_split_append(text: Seq<char>, more: Seq<char>)
    requires
        newline_free(more),
    ensures
        split_newlines(text + more) == split_newlines(text).update(
            split_newlines(text).len() - 1,
            split_newlines(text).last() + more,
        ),
    decreases more.len(),
{
    lemma_split_newlines_len(text);
    let pieces = split_newlines(text);
    if more.len() == 0 {
        assert(text + more =~= text);
        assert(pieces.last() + more =~= pieces.last());
        assert(pieces.update(pieces.len() - 1, pieces.last()) =~= pieces);
    } else {
        let front = more.drop_last();
        lemma_split_append(text, front);
        assert((text + more).drop_last() =~= text + front);
        assert((text + more).last() == more.last());
        assert((pieces.last() + front).push(more.last()) =~= pieces.last() + more);
        assert(split_newlines(text + more) =~= pieces.update(
            pieces.len() - 1,
            pieces.last() + more,
        ));
    }
}

/// A newline at the end starts a new, empty piece.
pub proof fn lemma_split_newline(text: Seq<char>)
    ensures
        split_newlines(text + seq!['\n']) == split_newlines(text).push(Seq::empty()),
{
    assert((text + seq!['\n']).drop_last() =~= text);
}

/// Whole lines without newlines, added after a text that ends a line, are
/// pieces of their own, and an empty piece follows them.
pub proof fn lemma_split_whole_lines(text: Seq<char>, lines: Seq<Seq<char>>, from: int, to: int)
    requires
        0 <= from <= to <= lines.len(),
        split_newlines(text).last() == Seq::<char>::empty(),
        forall|r: int| from <= r < to ==> newline_free(#[trigger] lines[r]),
    ensures
        split_newlines(text + whole_lines(lines, from, to)) == split_newlines(text).drop_last()
            + lines.subrange(from, to) + seq![Seq::<char>::empty()],
    decreases to - from,
{
    lemma_split_newlines_len(text);
    let pieces = split_newlines(text);
    if from == to {
        assert(text + whole_lines(lines, from, to) =~= text);
        assert(pieces.drop_last() + lines.subrange(from, to) + seq![Seq::<char>::empty()]
            =~= pieces);
    } else {
        lemma_split_whole_lines(text, lines, from, to - 1);
        let before = text + whole_lines(lines, from, to - 1);
        let line = lines[to - 1];
        lemma_split_newlines_len(before);
        lemma_split_append(before, line);
        lemma_split_newline(before + line);
        assert(text + whole_lines(lines, from, to) =~= before + line + seq!['\n']);
        assert(Seq::<char>::empty() + line =~= line);
        assert(split_newlines(text + whole_lines(lines, from, to)) =~= pieces.drop_last()
            + lines.subrange(from, to) + seq![Seq::<char>::empty()]);
    }
}

/// Whether the text between `s` and `e` holds no newline but those that
/// stand for the ends of lines.
pub open spec fn span_clean(lines: Seq<Seq<char>>, s: Pos, e: Pos) -> bool {
    if s.row == e.row {
        newline_free(lines[s.row].subrange(s.col, e.col))
    } else {
        &&& newline_free(lines[s.row].subrange(s.col, lines[s.row].len() as int))
        &&& forall|r: int| s.row < r < e.row ==> newline_free(#[trigger] lines[r])
        &&& newline_free(lines[e.row].subrange(0, e.col))
    }
}

/// The text between two positions falls into the pieces it was taken
/// from: the rest of the first line, the lines between, and the start of
/// the last line.
pub proof fn lemma_split_text_between(lines: Seq<Seq<char>>, s: Pos, e: Pos)
    requires
        has_pos(lines, s),
        has_pos(lines, e),
        s.row < e.row,
        span_clean(lines, s, e),
    ensures
        split_newlines(text_between(lines, s, e)) == seq![
            lines[s.row].subrange(s.col, lines[s.row].len() as int),
        ] + lines.subrange(s.row + 1, e.row) + seq![lines[e.row].subrange(0, e.col)],
{
    let first = lines[s.row].subrange(s.col, lines[s.row].len() as int);
    let last = lines[e.row].subrange(0, e.col);
    let mid = lines.subrange(s.row + 1, e.row);
    lemma_split_clean(first);
    lemma_split_newline(first);
    let start = first + seq!['\n'];
    assert(split_newlines(start) =~= seq![first, Seq::<char>::empty()]);
    lemma_split_whole_lines(start, lines, s.row + 1, e.row);
    let body = start + whole_lines(lines, s.row + 1, e.row);
    assert(split_newlines(start).drop_last() =~= seq![first]);
    assert(split_newlines(body) =~= seq![first] + mid + seq![Seq::<char>::empty()]);
    lemma_split_append(body, last);
    assert(Seq::<char>::empty() + last =~= last);
    assert(split_newlines(body + last) =~= seq![first] + mid + seq![last]);
    assert(text_between(lines, s, e) =~= body + last);
}

/// Cutting a selection and pasting the removed text back before the caret
/// restores the document, line by line. The selected text must hold no
/// newline of its own: a paste breaks the line at every newline.
pub proof fn lemma_cut_then_paste_restores(doc: Doc, anchor: Pos, active: Pos)
    requires
        doc.valid(),
        has_pos(doc.lines, anchor),
        has_pos(doc.lines, active),
        span_clean(doc.lines, span_start(anchor, active), doc.selection_end(anchor, active)),
    ensures
        doc.delete_selection(anchor, active).paste(
            doc.selection_text(anchor, active),
            false,
            false,
        ).lines == doc.lines,
        doc.delete_selection(anchor, active).caret() == span_start(anchor, active),
{
    let s = span_start(anchor, active);
    let e = doc.selection_end(anchor, active);
    let lines = doc.lines;
    let cut = doc.delete_selection(anchor, active);
    let text = doc.selection_text(anchor, active);
    let back = cut.paste(text, false, false);
    let head = lines[s.row].subrange(0, s.col);
    let tail = lines[e.row].subrange(e.col, lines[e.row].len() as int);
    let a = lines.subrange(0, s.row);
    let c = lines.subrange(e.row + 1, lines.len() as int);
    assert(cut.lines =~= a + seq![head + tail] + c);
    assert(cut.line() == head + tail);
    assert(cut.line().subrange(0, s.col) =~= head);
    assert(cut.line().subrange(s.col, cut.line().len() as int) =~= tail);
    assert(cut.lines.subrange(0, s.row) =~= a);
    assert(cut.lines.subrange(s.row + 1, cut.lines.len() as int) =~= c);
    let pieces = split_newlines(text);
    if s.row == e.row {
        lemma_split_clean(text);
        assert(head + text + tail =~= lines[s.row]);
        assert(spliced_lines(head, pieces, tail) =~= seq![lines[s.row]]);
        assert(back.lines =~= lines);
    } else {
        lemma_split_text_between(lines, s, e);
        let block = spliced_lines(head, pieces, tail);
        let first = lines[s.row].subrange(s.col, lines[s.row].len() as int);
        let last = lines[e.row].subrange(0, e.col);
        assert(pieces.len() == e.row - s.row + 1);
        assert forall|i: int| 0 <= i < block.len() implies block[i] == lines[s.row + i] by {
            if i == 0 {
                assert(pieces[0] == first);
                assert(head + first + Seq::<char>::empty() =~= lines[s.row]);
            } else if i == pieces.len() - 1 {
                assert(pieces[i] == last);
                assert(Seq::<char>::empty() + last + tail =~= lines[e.row]);
            } else {
                assert(pieces[i] == lines[s.row + i]);
                assert(Seq::<char>::empty() + lines[s.row + i] + Seq::<char>::empty()
                    =~= lines[s.row + i]);
            }
        }
        assert(block =~= lines.subrange(s.row, e.row + 1));
        assert(back.lines =~= lines);
    }
}

/// Copying a selection leaves the document as it is, and pasting an empty
/// copy back leaves it as it is too.
pub proof fn lemma_copy_keeps_document(doc: Doc, anchor: Pos, active: Pos, after: bool)
    requires
        doc.valid(),
        has_pos(doc.lines, anchor),
        has_pos(doc.lines, active),
    ensures
        doc.copy_selection(anchor, active).lines == doc.lines,
        doc.copy_selection(anchor, active).valid(),
        doc.copied(anchor, active).len() == 0 ==> doc.copy_selection(anchor, active).paste(
            doc.copied(anchor, active),
            false,
            after,
        ).lines == doc.lines,
{
    let copy = doc.copy_selection(anchor, active);
    let text = doc.copied(anchor, active);
    if text.len() == 0 {
        let at = copy.paste_column(after);
        let line = copy.line();
        assert(text =~= Seq::<char>::empty());
        assert(line.subrange(0, at) + Seq::<char>::empty() + line.subrange(at, line.len() as int)
            =~= line);
        assert(spliced_lines(
            line.subrange(0, at),
            split_newlines(text),
            line.subrange(at, line.len() as int),
        ) =~= seq![line]);
        assert(copy.paste(text, false, after).lines =~= doc.lines);
    }
}

} // verus!
