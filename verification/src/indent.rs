//! Indentation of the caret's line by brace depth.

use vstd::prelude::*;
use crate::buffer::{brace_depth, brace_scan, spaces, Buffer};
use crate::document::{set_line, text_of};
use crate::text::{copy_range, push_all, skip_forward, CharClass};

verus! {

/// The brace depth after the first `rows` lines of `lines`.
fn depth_after(lines: &Vec<Vec<char>>, rows: usize) -> (depth: u128)
    requires
        rows <= lines.len(),
    ensures
        depth == brace_depth(text_of(lines@), rows as int),
{
    let mut depth: u128 = 0;
    let mut i: usize = 0;
    while i < rows
        invariant
            i <= rows <= lines.len(),
            depth == brace_depth(text_of(lines@), i as int),
            depth <= i * 0xFFFF_FFFF_FFFF_FFFF,
        decreases rows - i,
    {
        let line = &lines[i];
        let ghost start = depth as nat;
        let mut j: usize = 0;
        assert(line@.subrange(0, 0) =~= Seq::<char>::empty());
        while j < line.len()
            invariant
                j <= line.len(),
                depth == brace_scan(line@.subrange(0, j as int), start),
                depth <= start + j,
                start <= i * 0xFFFF_FFFF_FFFF_FFFF,
                i < 0x1_0000_0000_0000_0000,
            decreases line.len() - j,
        {
            assert(line@.subrange(0, j + 1).drop_last() =~= line@.subrange(0, j as int));
            assert(i * 0xFFFF_FFFF_FFFF_FFFF + j < 0xFFFF_FFFF_FFFF_FFFF_FFFF_FFFF_FFFF_FFFF)
                by (nonlinear_arith)
                requires
                    0 <= i < 0x1_0000_0000_0000_0000,
                    0 <= j < 0x1_0000_0000_0000_0000,
            ;
            let c = line[j];
            if c == '{' {
                depth += 1;
            } else if c == '}' && depth > 0 {
                depth -= 1;
            }
            j += 1;
        }
        assert(line@.subrange(0, line.len() as int) =~= line@);
        assert((i + 1) * 0xFFFF_FFFF_FFFF_FFFF == i * 0xFFFF_FFFF_FFFF_FFFF
            + 0xFFFF_FFFF_FFFF_FFFF) by (nonlinear_arith);
        i += 1;
    }
    depth
}

impl Buffer {
    /// Indents the caret's line to its brace depth, `width` spaces for each
    /// level, and puts the caret at the first character after them; see
    /// `Doc::indent_current_line`.
    pub fn indent_current_line(&mut self, width: usize)
        requires
            old(self).wf(),
        ensures
            final(self)@ == old(self)@.indent_current_line(width as nat),
            final(self).wf(),
    {
        let row = self.cursor.row;
        let count = self.lines.len();
        let first = skip_forward(&self.lines[row], CharClass::Whitespace, 0);
        let len = self.lines[row].len();
        let mut depth = depth_after(&self.lines, row + 1);
        if first < len && self.lines[row][first] == '}' && depth > 0 {
            depth -= 1;
        }
        assert(depth == old(self)@.indent_depth());
        let mut line: Vec<char> = Vec::new();
        let mut level: u128 = 0;
        assert(line@ =~= spaces(0));
        while level < depth
            invariant
                level <= depth,
                line@ == spaces((level * width) as nat),
            decreases depth - level,
        {
            let mut k: usize = 0;
            while k < width
                invariant
                    k <= width,
                    level < depth,
                    line@ == spaces((level * width + k) as nat),
                decreases width - k,
            {
                line.push(' ');
                k += 1;
                assert(line@ =~= spaces((level * width + k) as nat));
            }
            assert((level + 1) * width == level * width + width) by (nonlinear_arith);
            level += 1;
        }
        let pad = line.len();
        let rest = copy_range(&self.lines[row], first, len);
        push_all(&mut line, &rest);
        set_line(&mut self.lines, row, line);
        self.cursor.col = pad;
    }
}

} // verus!
