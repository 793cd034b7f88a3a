//! The vertical window onto the document.
//!
//! Every scrolling rule first picks the offset it would like and then takes
//! the nearest offset that is in range and shows the caret's row.

use vstd::prelude::*;
use crate::text::copy_range;

verus! {

/// The window: the topmost visible row, the number of visible rows, and the
/// margins that ordinary vertical movement keeps around the caret.
#[derive(Clone, Copy, Debug, PartialEq, Eq, Structural)]
pub struct Viewport {
    pub offset: usize,
    pub height: usize,
    pub top_margin: usize,
    pub bottom_margin: usize,
}

/// The model of a window.
pub struct Window {
    pub offset: int,
    pub height: int,
    pub top_margin: int,
    pub bottom_margin: int,
}

impl View for Viewport {
    type V = Window;

    open spec fn view(&self) -> Window {
        Window {
            offset: self.offset as int,
            height: self.height as int,
            top_margin: self.top_margin as int,
            bottom_margin: self.bottom_margin as int,
        }
    }
}

/// The largest offset that leaves no empty rows below a document of `count`
/// lines in a window of `height` rows.
pub open spec fn max_offset(count: int, height: int) -> int {
    if count > height {
        count - height
    } else {
        0
    }
}

/// The least offset at which `row` is visible.
pub open spec fn least_offset(row: int, height: int) -> int {
    if row + 1 > height {
        row + 1 - height
    } else {
        0
    }
}

/// The greatest offset in range at which `row` is visible.
pub open spec fn greatest_offset(row: int, count: int, height: int) -> int {
    if row <= max_offset(count, height) {
        row
    } else {
        max_offset(count, height)
    }
}

/// The offset nearest to `target` that is in range and shows `row`.
pub open spec fn fit(target: int, row: int, count: int, height: int) -> int {
    if target < least_offset(row, height) {
        least_offset(row, height)
    } else if target > greatest_offset(row, count, height) {
        greatest_offset(row, count, height)
    } else {
        target
    }
}

/// Whether a window at `offset` is in range and shows `row`.
pub open spec fn shows(offset: int, row: int, count: int, height: int) -> bool {
    &&& 0 <= offset <= max_offset(count, height)
    &&& offset <= row < offset + height
}

/// The offset that puts `row` in the middle of the window.
pub open spec fn centered(row: int, height: int) -> int {
    if row >= height / 2 {
        row - height / 2
    } else {
        0
    }
}

/// `fit` yields an offset that is in range and shows the row, and leaves
/// alone an offset that already does.
pub proof fn lemma_fit(target: int, row: int, count: int, height: int)
    requires
        0 <= row < count,
        height >= 1,
    ensures
        shows(fit(target, row, count, height), row, count, height),
        shows(target, row, count, height) ==> fit(target, row, count, height) == target,
{
}

impl Window {
    /// The window is in range for a document of `count` lines and shows
    /// `row`.
    pub open spec fn contains(self, row: int, count: int) -> bool {
        shows(self.offset, row, count, self.height)
    }

    /// The window moved to the offset nearest to `target` that is in range
    /// and shows `row`.
    pub open spec fn settled(self, target: int, row: int, count: int) -> Window {
        Window { offset: fit(target, row, count, self.height), ..self }
    }

    /// The offset that the margin rule asks for: the caret's row stays
    /// `top_margin` rows below the top and `bottom_margin` rows above the
    /// bottom.
    pub open spec fn margin_target(self, row: int) -> int {
        if row < self.offset + self.top_margin {
            if row >= self.top_margin {
                row - self.top_margin
            } else {
                0
            }
        } else if row + self.bottom_margin >= self.offset + self.height {
            row + self.bottom_margin + 1 - self.height
        } else {
            self.offset
        }
    }

    /// The offset asked for after the caret went up one row: one row up
    /// when the caret is inside the top margin.
    pub open spec fn up_target(self, row: int) -> int {
        if row < self.offset + self.top_margin && self.offset > 0 {
            self.offset - 1
        } else {
            self.offset
        }
    }

    /// The offset asked for after the caret went down one row: one row down
    /// when the caret is inside the bottom margin and the document goes on.
    pub open spec fn down_target(self, row: int, count: int) -> int {
        let reach = if self.height > self.bottom_margin {
            self.height - self.bottom_margin
        } else {
            0
        };
        if row >= self.offset + reach && self.offset < max_offset(count, self.height) {
            self.offset + 1
        } else {
            self.offset
        }
    }

    /// The caret's row in the middle of the window.
    pub open spec fn recentered(self, row: int, count: int) -> Window {
        self.settled(centered(row, self.height), row, count)
    }

    /// Scrolled by the least amount that shows `row`.
    pub open spec fn enough(self, row: int, count: int) -> Window {
        self.settled(self.offset, row, count)
    }

    /// Scrolled so that `row` keeps the margins.
    pub open spec fn with_margins(self, row: int, count: int) -> Window {
        self.settled(self.margin_target(row), row, count)
    }

    /// Scrolled after the caret went up to `row`.
    pub open spec fn followed_up(self, row: int, count: int) -> Window {
        self.settled(self.up_target(row), row, count)
    }

    /// Scrolled after the caret went down to `row`.
    pub open spec fn followed_down(self, row: int, count: int) -> Window {
        self.settled(self.down_target(row, count), row, count)
    }

    /// Scrolled to the end of the document.
    pub open spec fn at_bottom(self, row: int, count: int) -> Window {
        self.settled(max_offset(count, self.height), row, count)
    }

    /// With `height` visible rows, zero counting as one, and scrolled by
    /// the least amount that shows `row`.
    pub open spec fn resized(self, height: int, row: int, count: int) -> Window {
        Window {
            height: if height >= 1 {
                height
            } else {
                1
            },
            ..self
        }.enough(row, count)
    }
}

/// Ordinary vertical movement scrolls by at most one row: when the window
/// showed the caret before it went one row up or down, the window that
/// follows it differs by at most one row.
pub proof fn lemma_follow_moves_one_row(w: Window, row: int, count: int)
    requires
        w.height >= 1,
        0 <= row < count,
    ensures
        row + 1 < count && w.contains(row, count) ==> w.offset <= w.followed_down(
            row + 1,
            count,
        ).offset <= w.offset + 1,
        row > 0 && w.contains(row, count) ==> w.offset - 1 <= w.followed_up(row - 1, count).offset
            <= w.offset,
{
}

/// The part of a line that a window of `width` columns shows: its first
/// `width` characters. Longer lines are cut off, never wrapped.
pub open spec fn shown(line: Seq<char>, width: int) -> Seq<char> {
    if line.len() <= width {
        line
    } else {
        line.subrange(0, width)
    }
}

/// The part of a line that a window of `width` columns shows; see `shown`.
pub fn visible_line(line: &Vec<char>, width: usize) -> (out: Vec<char>)
    ensures
        out@ == shown(line@, width as int),
{
    let n: usize = if line.len() <= width {
        line.len()
    } else {
        width
    };
    let out = copy_range(line, 0, n);
    assert(line@.subrange(0, line.len() as int) =~= line@);
    out
}

impl Viewport {
    /// The rows of a document of `count` lines that the window shows: from
    /// the first of the pair up to, and not including, the second.
    pub fn visible_rows(&self, count: usize) -> (rows: (usize, usize))
        ensures
            rows.0 == (if self.offset <= count {
                self.offset
            } else {
                count
            }),
            rows.1 == (if self.offset + self.height <= count {
                self.offset + self.height
            } else {
                count as int
            }),
    {
        let first: usize = if self.offset <= count {
            self.offset
        } else {
            count
        };
        let last: usize = if first < count && self.height < count - first {
            first + self.height
        } else {
            count
        };
        (first, last)
    }

    /// The window has at least one row.
    pub open spec fn wf(&self) -> bool {
        self.height >= 1
    }

    /// A window at the top of the document. A height of zero counts as one.
    pub fn new(height: usize, top_margin: usize, bottom_margin: usize) -> (v: Viewport)
        ensures
            v.wf(),
            v.offset == 0,
            v.height == (if height >= 1 {
                height
            } else {
                1
            }),
            v.top_margin == top_margin,
            v.bottom_margin == bottom_margin,
    {
        Viewport {
            offset: 0,
            height: if height >= 1 {
                height
            } else {
                1
            },
            top_margin,
            bottom_margin,
        }
    }

    /// Moves the window to the offset nearest to `target` that is in range
    /// and shows `row`.
    fn settle(&mut self, target: u128, row: usize, count: usize)
        requires
            old(self).wf(),
            row < count,
        ensures
            final(self)@ == old(self)@.settled(target as int, row as int, count as int),
            final(self)@.contains(row as int, count as int),
            final(self).wf(),
    {
        proof {
            lemma_fit(target as int, row as int, count as int, self.height as int);
        }
        let height = self.height;
        let least: usize = if row >= height {
            row + 1 - height
        } else {
            0
        };
        let most: usize = if count > height {
            count - height
        } else {
            0
        };
        let greatest: usize = if row <= most {
            row
        } else {
            most
        };
        if target < least as u128 {
            self.offset = least;
        } else if target > greatest as u128 {
            self.offset = greatest;
        } else {
            self.offset = target as usize;
        }
    }

    /// Changes the number of visible rows; see `Window::resized`.
    pub fn resize(&mut self, height: usize, row: usize, count: usize)
        requires
            row < count,
        ensures
            final(self)@ == old(self)@.resized(height as int, row as int, count as int),
            final(self)@.contains(row as int, count as int),
            final(self).wf(),
    {
        self.height = if height >= 1 {
            height
        } else {
            1
        };
        let target = self.offset as u128;
        self.settle(target, row, count);
    }

    /// Puts `row` in the middle of the window, as far as the document's
    /// ends allow; see `Window::recentered`.
    pub fn recenter(&mut self, row: usize, count: usize)
        requires
            old(self).wf(),
            row < count,
        ensures
            final(self)@ == old(self)@.recentered(row as int, count as int),
            final(self)@.contains(row as int, count as int),
            final(self).wf(),
    {
        let half = self.height / 2;
        let target: u128 = if row >= half {
            (row - half) as u128
        } else {
            0
        };
        self.settle(target, row, count);
    }

    /// Scrolls by the least amount that brings `row` into view; see
    /// `Window::enough`.
    pub fn scroll_enough(&mut self, row: usize, count: usize)
        requires
            old(self).wf(),
            row < count,
        ensures
            final(self)@ == old(self)@.enough(row as int, count as int),
            final(self)@.contains(row as int, count as int),
            final(self).wf(),
    {
        let target = self.offset as u128;
        self.settle(target, row, count);
    }

    /// Scrolls so that `row` keeps the margins; see
    /// `Window::with_margins`.
    pub fn scroll_with_margins(&mut self, row: usize, count: usize)
        requires
            old(self).wf(),
            row < count,
        ensures
            final(self)@ == old(self)@.with_margins(row as int, count as int),
            final(self)@.contains(row as int, count as int),
            final(self).wf(),
    {
        let offset = self.offset as u128;
        let top = self.top_margin as u128;
        let bottom = self.bottom_margin as u128;
        let height = self.height as u128;
        let r = row as u128;
        let target: u128 = if r < offset + top {
            if r >= top {
                r - top
            } else {
                0
            }
        } else if r + bottom >= offset + height {
            r + bottom + 1 - height
        } else {
            offset
        };
        self.settle(target, row, count);
    }

    /// Scrolls after the caret went up to `row`; see
    /// `Window::followed_up`.
    pub fn follow_up(&mut self, row: usize, count: usize)
        requires
            old(self).wf(),
            row < count,
        ensures
            final(self)@ == old(self)@.followed_up(row as int, count as int),
            final(self)@.contains(row as int, count as int),
            final(self).wf(),
    {
        let offset = self.offset as u128;
        let target: u128 = if (row as u128) < offset + self.top_margin as u128 && offset > 0 {
            offset - 1
        } else {
            offset
        };
        self.settle(target, row, count);
    }

    /// Scrolls after the caret went down to `row`; see
    /// `Window::followed_down`.
    pub fn follow_down(&mut self, row: usize, count: usize)
        requires
            old(self).wf(),
            row < count,
        ensures
            final(self)@ == old(self)@.followed_down(row as int, count as int),
            final(self)@.contains(row as int, count as int),
            final(self).wf(),
    {
        let offset = self.offset as u128;
        let reach: u128 = if self.height > self.bottom_margin {
            (self.height - self.bottom_margin) as u128
        } else {
            0
        };
        let most: u128 = if count > self.height {
            (count - self.height) as u128
        } else {
            0
        };
        let target: u128 = if row as u128 >= offset + reach && offset < most {
            offset + 1
        } else {
            offset
        };
        self.settle(target, row, count);
    }

    /// Scrolls to the start of the document, for a caret on its first row.
    pub fn scroll_to_top(&mut self, count: usize)
        requires
            old(self).wf(),
            0 < count,
        ensures
            final(self)@ == old(self)@.settled(0, 0, count as int),
            final(self)@.contains(0, count as int),
            final(self).wf(),
    {
        self.settle(0, 0, count);
    }

    /// Scrolls to the end of the document; see `Window::at_bottom`.
    pub fn scroll_to_bottom(&mut self, row: usize, count: usize)
        requires
            old(self).wf(),
            row < count,
        ensures
            final(self)@ == old(self)@.at_bottom(row as int, count as int),
            final(self)@.contains(row as int, count as int),
            final(self).wf(),
    {
        let target: u128 = if count > self.height {
            (count - self.height) as u128
        } else {
            0
        };
        self.settle(target, row, count);
    }
}

} // verus!
