//! Syntax highlights: which nodes of a syntax tree are coloured, and the
//! part of each that falls on a line.
//!
//! Positions count characters of the source text, in which every line of
//! the document is followed by a newline. The host parses the text and
//! hands over the nodes of the tree, parents before their children.

use vstd::prelude::*;
use crate::document::text_of;
use crate::text::push_all;
use crate::theme::{Rgb, Theme};

verus! {

/// The kinds of nodes that matter for colouring.
#[derive(Clone, Copy, Debug, PartialEq, Eq, Structural)]
pub enum NodeKind {
    LetCondition,
    StringLiteral,
    UseDeclaration,
    /// Every other kind.
    Other,
}

/// A node of the syntax tree: its kind and the range of its text.
#[derive(Clone, Copy, Debug, PartialEq, Eq, Structural)]
pub struct SyntaxNode {
    pub kind: NodeKind,
    pub start: usize,
    pub end: usize,
}

/// A coloured range.
#[derive(Clone, Copy, Debug, PartialEq, Eq, Structural)]
pub struct Highlight {
    pub start: usize,
    pub end: usize,
    pub color: Rgb,
}

/// The nodes of the last parse and the highlights collected from them.
#[derive(Debug)]
pub struct SyntaxHighlighter {
    pub nodes: Vec<SyntaxNode>,
    pub highlights: Vec<Highlight>,
}

/// The colour of a kind of node, for the kinds that have one.
pub open spec fn kind_color(kind: NodeKind, theme: Theme) -> Option<Rgb> {
    match kind {
        NodeKind::LetCondition => Some(theme.dired_path_color),
        NodeKind::StringLiteral => Some(theme.string_color),
        NodeKind::UseDeclaration => Some(theme.use_color),
        NodeKind::Other => None,
    }
}

/// The source text of a document: every line followed by a newline.
pub open spec fn source_of(lines: Seq<Seq<char>>) -> Seq<char>
    decreases lines.len(),
{
    if lines.len() == 0 {
        Seq::empty()
    } else {
        source_of(lines.drop_last()) + lines.last() + seq!['\n']
    }
}

/// The position in the source text at which line `n` starts.
pub open spec fn line_start(lines: Seq<Seq<char>>, n: int) -> int
    decreases n,
{
    if n <= 0 {
        0
    } else {
        line_start(lines, n - 1) + lines[n - 1].len() + 1
    }
}

/// The position at which line `n` ends for colouring: the start of the
/// next line, or, for the last line, the position of its newline.
pub open spec fn line_stop(lines: Seq<Seq<char>>, n: int) -> int {
    if n + 1 < lines.len() {
        line_start(lines, n + 1)
    } else {
        line_start(lines, lines.len() as int) - 1
    }
}

/// The highlights of all coloured nodes, in the order of the nodes.
pub open spec fn collected(nodes: Seq<SyntaxNode>, theme: Theme) -> Seq<Highlight>
    decreases nodes.len(),
{
    if nodes.len() == 0 {
        Seq::empty()
    } else {
        let rest = collected(nodes.drop_last(), theme);
        let node = nodes.last();
        match kind_color(node.kind, theme) {
            Some(color) => rest.push(Highlight { start: node.start, end: node.end, color }),
            None => rest,
        }
    }
}

/// Whether a node reaches into the positions `from..to`.
pub open spec fn overlaps(node: SyntaxNode, from: int, to: int) -> bool {
    node.start < to && node.end > from
}

/// The part of a node that lies in `from..to`, counted from `from`.
pub open spec fn clipped(node: SyntaxNode, from: int, to: int, color: Rgb) -> Highlight {
    Highlight {
        start: ((if node.start > from {
            node.start as int
        } else {
            from
        }) - from) as usize,
        end: ((if node.end < to {
            node.end as int
        } else {
            to
        }) - from) as usize,
        color,
    }
}

/// The highlights on the positions `from..to`: of every coloured node that
/// reaches into them, the part that lies in them.
pub open spec fn highlights_in(nodes: Seq<SyntaxNode>, from: int, to: int, theme: Theme) -> Seq<
    Highlight,
>
    decreases nodes.len(),
{
    if nodes.len() == 0 {
        Seq::empty()
    } else {
        let rest = highlights_in(nodes.drop_last(), from, to, theme);
        let node = nodes.last();
        match kind_color(node.kind, theme) {
            Some(color) => if overlaps(node, from, to) {
                rest.push(clipped(node, from, to, color))
            } else {
                rest
            },
            None => rest,
        }
    }
}

/// A line ends at or after its start.
pub proof fn lemma_line_stop(lines: Seq<Seq<char>>, n: int)
    requires
        0 <= n < lines.len(),
    ensures
        0 <= line_start(lines, n) <= line_stop(lines, n),
    decreases n,
{
    if n > 0 {
        lemma_line_stop(lines, n - 1);
    }
}

/// The colour of a kind of node; see `kind_color`.
pub fn get_color_for_node_kind(kind: NodeKind, theme: &Theme) -> (color: Option<Rgb>)
    ensures
        color == kind_color(kind, *theme),
{
    match kind {
        NodeKind::LetCondition => Some(theme.dired_path_color),
        NodeKind::StringLiteral => Some(theme.string_color),
        NodeKind::UseDeclaration => Some(theme.use_color),
        NodeKind::Other => None,
    }
}

/// The source text that the parser reads; see `source_of`.
pub fn source_text(lines: &Vec<Vec<char>>) -> (text: Vec<char>)
    ensures
        text@ == source_of(text_of(lines@)),
{
    let mut text: Vec<char> = Vec::new();
    let mut i: usize = 0;
    while i < lines.len()
        invariant
            i <= lines.len(),
            text@ == source_of(text_of(lines@).subrange(0, i as int)),
        decreases lines.len() - i,
    {
        let ghost after = text_of(lines@).subrange(0, i + 1);
        assert(after.drop_last() =~= text_of(lines@).subrange(0, i as int));
        assert(after.last() == lines@[i as int]@);
        push_all(&mut text, &lines[i]);
        text.push('\n');
        i += 1;
    }
    assert(text_of(lines@).subrange(0, lines.len() as int) =~= text_of(lines@));
    text
}

/// The position in the source text at which line `n` starts; see
/// `line_start`.
pub fn line_to_byte_index(n: usize, lines: &Vec<Vec<char>>) -> (at: u128)
    requires
        n <= lines.len(),
    ensures
        at == line_start(text_of(lines@), n as int),
{
    let mut at: u128 = 0;
    let mut i: usize = 0;
    while i < n
        invariant
            i <= n <= lines.len(),
            at == line_start(text_of(lines@), i as int),
            at <= i * 0x1_0000_0000_0000_0000,
        decreases n - i,
    {
        assert(i * 0x1_0000_0000_0000_0000 + 0x1_0000_0000_0000_0000
            < 0x1_0000_0000_0000_0000_0000_0000_0000_0000) by (nonlinear_arith)
            requires
                0 <= i < 0xFFFF_FFFF_FFFF_FFFF,
        ;
        assert((i + 1) * 0x1_0000_0000_0000_0000 == i * 0x1_0000_0000_0000_0000
            + 0x1_0000_0000_0000_0000) by (nonlinear_arith);
        at = at + lines[i].len() as u128 + 1;
        i += 1;
    }
    at
}

impl SyntaxHighlighter {
    /// A highlighter without nodes and highlights.
    pub fn new() -> (h: SyntaxHighlighter)
        ensures
            h.nodes@.len() == 0,
            h.highlights@.len() == 0,
    {
        SyntaxHighlighter { nodes: Vec::new(), highlights: Vec::new() }
    }

    /// Takes over the nodes of a new parse.
    pub fn parse(&mut self, nodes: Vec<SyntaxNode>)
        ensures
            final(self).nodes@ == nodes@,
            final(self).highlights@ == old(self).highlights@,
    {
        self.nodes = nodes;
    }

    /// Adds the highlights of all coloured nodes to those collected so
    /// far; see `collected`.
    pub fn update_syntax_highlights(&mut self, theme: &Theme)
        ensures
            final(self).highlights@ == old(self).highlights@ + collected(old(self).nodes@, *theme),
            final(self).nodes@ == old(self).nodes@,
    {
        let mut i: usize = 0;
        assert(self.nodes@.subrange(0, 0) =~= Seq::<SyntaxNode>::empty());
        assert(self.highlights@ =~= old(self).highlights@ + Seq::<Highlight>::empty());
        while i < self.nodes.len()
            invariant
                i <= self.nodes.len(),
                self.nodes@ == old(self).nodes@,
                self.highlights@ == old(self).highlights@ + collected(
                    self.nodes@.subrange(0, i as int),
                    *theme,
                ),
            decreases self.nodes.len() - i,
        {
            let node = self.nodes[i];
            assert(self.nodes@.subrange(0, i + 1).drop_last() =~= self.nodes@.subrange(0, i as int));
            assert(self.nodes@.subrange(0, i + 1).last() == node);
            match get_color_for_node_kind(node.kind, theme) {
                Some(color) => {
                    self.highlights.push(Highlight { start: node.start, end: node.end, color });
                    assert(self.highlights@ =~= old(self).highlights@ + collected(
                        self.nodes@.subrange(0, i + 1),
                        *theme,
                    ));
                },
                None => {},
            }
            i += 1;
        }
        assert(self.nodes@.subrange(0, self.nodes.len() as int) =~= self.nodes@);
    }

    /// The highlights on line `line_num` of the document `buffer`, counted
    /// from the start of the line; see `highlights_in`.
    pub fn highlight_line(&self, line_num: usize, buffer: &Vec<Vec<char>>, theme: &Theme) -> (found: Vec<
        Highlight,
    >)
        requires
            line_num < buffer.len(),
        ensures
            found@ == highlights_in(
                self.nodes@,
                line_start(text_of(buffer@), line_num as int),
                line_stop(text_of(buffer@), line_num as int),
                *theme,
            ),
    {
        proof {
            lemma_line_stop(text_of(buffer@), line_num as int);
        }
        let from = line_to_byte_index(line_num, buffer);
        let to = if line_num + 1 < buffer.len() {
            line_to_byte_index(line_num + 1, buffer)
        } else {
            line_to_byte_index(buffer.len(), buffer) - 1
        };
        let mut found: Vec<Highlight> = Vec::new();
        let mut i: usize = 0;
        assert(self.nodes@.subrange(0, 0) =~= Seq::<SyntaxNode>::empty());
        while i < self.nodes.len()
            invariant
                i <= self.nodes.len(),
                from <= to,
                found@ == highlights_in(self.nodes@.subrange(0, i as int), from as int, to as int, *theme),
            decreases self.nodes.len() - i,
        {
            let node = self.nodes[i];
            assert(self.nodes@.subrange(0, i + 1).drop_last() =~= self.nodes@.subrange(0, i as int));
            assert(self.nodes@.subrange(0, i + 1).last() == node);
            match get_color_for_node_kind(node.kind, theme) {
                Some(color) => {
                    if (node.start as u128) < to && node.end as u128 > from {
                        let first: u128 = if node.start as u128 > from {
                            node.start as u128
                        } else {
                            from
                        };
                        let last: u128 = if (node.end as u128) < to {
                            node.end as u128
                        } else {
                            to
                        };
                        found.push(
                            Highlight {
                                start: (first - from) as usize,
                                end: (last - from) as usize,
                                color,
                            },
                        );
                    }
                },
                None => {},
            }
            i += 1;
        }
        assert(self.nodes@.subrange(0, self.nodes.len() as int) =~= self.nodes@);
        found
    }
}

} // verus!
