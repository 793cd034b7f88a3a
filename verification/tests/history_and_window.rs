use redit::buffer::{Buffer, Cursor};
use redit::history::{History, Snapshot};
use redit::viewport::Viewport;

fn chars(s: &str) -> Vec<char> {
    s.chars().collect()
}

fn buffer(lines: &[&str], col: usize, row: usize) -> Buffer {
    Buffer::new(lines.iter().map(|l| chars(l)).collect(), Cursor { col, row })
}

fn lines_of(b: &Buffer) -> Vec<String> {
    b.lines.iter().map(|l| l.iter().collect()).collect()
}

fn window(offset: usize, height: usize, top: usize, bottom: usize) -> Viewport {
    Viewport { offset, height, top_margin: top, bottom_margin: bottom }
}

#[test]
fn history_starts_with_one_snapshot() {
    let b = buffer(&["abc"], 1, 0);
    let h = History::new(&b);
    assert_eq!(h.len(), 1);
    assert_eq!(h.index, 0);
    assert!(h.states[0].matches_buffer(&b));
}

#[test]
fn undo_restores_document_and_caret() {
    let mut b = buffer(&["abc", "def"], 3, 0);
    let mut h = History::new(&b);
    b.split_line_at_cursor();
    h.snapshot(&b);
    assert_eq!(h.len(), 2);
    assert_eq!(h.index, 1);
    assert!(h.undo(&mut b));
    assert_eq!(lines_of(&b), vec!["abc", "def"]);
    assert_eq!((b.cursor.col, b.cursor.row), (3, 0));
    assert_eq!(h.index, 0);
    assert_eq!(h.len(), 2);
}

#[test]
fn undo_round_trip_for_each_edit() {
    for edit in 0..6 {
        let mut b = buffer(&["a(b", "  cd", ""], 2, 1);
        let mut h = History::new(&b);
        match edit {
            0 => b.insert_char('x', true),
            1 => b.backspace(true),
            2 => {
                b.delete_at_cursor();
            }
            3 => b.split_line_at_cursor(),
            4 => b.join_next_line(),
            _ => {
                b.kill_line();
            }
        }
        h.snapshot(&b);
        assert!(h.undo(&mut b));
        assert_eq!(lines_of(&b), vec!["a(b", "  cd", ""]);
        assert_eq!((b.cursor.col, b.cursor.row), (2, 1));
    }
}

#[test]
fn snapshot_twice_stores_one_entry() {
    let mut b = buffer(&["abc"], 0, 0);
    let mut h = History::new(&b);
    b.insert_char('x', false);
    h.snapshot(&b);
    h.snapshot(&b);
    assert_eq!(h.len(), 2);
    assert_eq!(h.index, 1);
}

#[test]
fn snapshot_of_unchanged_state_stores_nothing() {
    let b = buffer(&["abc"], 0, 0);
    let mut h = History::new(&b);
    h.snapshot(&b);
    assert_eq!(h.len(), 1);
    assert_eq!(h.index, 0);
}

#[test]
fn snapshot_notices_a_moved_caret() {
    let mut b = buffer(&["abc"], 0, 0);
    let mut h = History::new(&b);
    b.move_right();
    h.snapshot(&b);
    assert_eq!(h.len(), 2);
}

#[test]
fn undo_at_oldest_snapshot_changes_nothing() {
    let mut b = buffer(&["abc"], 1, 0);
    let mut h = History::new(&b);
    b.insert_char('x', false);
    assert!(!h.undo(&mut b));
    assert_eq!(lines_of(&b), vec!["axbc"]);
    assert_eq!(h.index, 0);
}

#[test]
fn redo_at_newest_snapshot_changes_nothing() {
    let mut b = buffer(&["abc"], 1, 0);
    let mut h = History::new(&b);
    assert!(!h.redo(&mut b));
    b.insert_char('x', false);
    h.snapshot(&b);
    assert!(!h.redo(&mut b));
    assert_eq!(lines_of(&b), vec!["axbc"]);
    assert_eq!(h.index, 1);
}

#[test]
fn redo_goes_forward_again() {
    let mut b = buffer(&["abc"], 1, 0);
    let mut h = History::new(&b);
    b.insert_char('x', false);
    h.snapshot(&b);
    assert!(h.undo(&mut b));
    assert!(h.redo(&mut b));
    assert_eq!(lines_of(&b), vec!["axbc"]);
    assert_eq!((b.cursor.col, b.cursor.row), (2, 0));
    assert_eq!(h.index, 1);
}

#[test]
fn new_edit_after_undo_discards_the_future() {
    let mut b = buffer(&["a"], 1, 0);
    let mut h = History::new(&b);
    b.insert_char('b', false);
    h.snapshot(&b);
    b.insert_char('c', false);
    h.snapshot(&b);
    assert_eq!(h.len(), 3);
    assert!(h.undo(&mut b));
    assert!(h.undo(&mut b));
    b.insert_char('z', false);
    h.snapshot(&b);
    assert_eq!(h.len(), 2);
    assert_eq!(h.index, 1);
    assert!(!h.redo(&mut b));
    assert_eq!(lines_of(&b), vec!["az"]);
}

#[test]
fn snapshot_equal_to_the_last_stored_one_is_skipped_after_undo() {
    let mut b = buffer(&["a"], 1, 0);
    let mut h = History::new(&b);
    b.insert_char('b', false);
    h.snapshot(&b);
    assert!(h.undo(&mut b));
    b.insert_char('b', false);
    h.snapshot(&b);
    assert_eq!(h.len(), 2);
    assert_eq!(h.index, 0);
}

#[test]
fn history_display_marks_the_current_snapshot() {
    let mut b = buffer(&["a"], 1, 0);
    let mut h = History::new(&b);
    assert_eq!(h.display('o', '*', '-'), chars("*"));
    b.insert_char('b', false);
    h.snapshot(&b);
    b.insert_char('c', false);
    h.snapshot(&b);
    assert_eq!(h.display('o', '*', '-'), chars("o-o-*"));
    h.undo(&mut b);
    assert_eq!(h.display('o', '*', '-'), chars("o-*-o"));
}

#[test]
fn snapshot_of_copies_the_buffer() {
    let b = buffer(&["ab", "c"], 1, 1);
    let s = Snapshot::of(&b);
    assert_eq!(s.lines, b.lines);
    assert_eq!(s.cursor, b.cursor);
    assert!(s.matches_buffer(&b));
    let other = buffer(&["ab", "c"], 0, 1);
    assert!(!s.matches_buffer(&other));
}

#[test]
fn new_window_has_at_least_one_row() {
    let v = Viewport::new(0, 2, 3);
    assert_eq!(v, window(0, 1, 2, 3));
    let v = Viewport::new(24, 10, 10);
    assert_eq!(v, window(0, 24, 10, 10));
}

#[test]
fn recenter_puts_the_row_in_the_middle() {
    let mut v = window(0, 20, 3, 3);
    v.recenter(50, 100);
    assert_eq!(v.offset, 40);
    v.recenter(5, 100);
    assert_eq!(v.offset, 0);
    v.recenter(10, 100);
    assert_eq!(v.offset, 0);
    v.recenter(11, 100);
    assert_eq!(v.offset, 1);
}

#[test]
fn recenter_stops_at_the_end_of_the_document() {
    let mut v = window(0, 20, 3, 3);
    v.recenter(99, 100);
    assert_eq!(v.offset, 80);
    let mut v = window(0, 20, 3, 3);
    v.recenter(7, 8);
    assert_eq!(v.offset, 0);
}

#[test]
fn scroll_enough_moves_by_the_least_amount() {
    let mut v = window(10, 5, 0, 0);
    v.scroll_enough(12, 100);
    assert_eq!(v.offset, 10);
    v.scroll_enough(3, 100);
    assert_eq!(v.offset, 3);
    v.scroll_enough(20, 100);
    assert_eq!(v.offset, 16);
    v.scroll_enough(20, 21);
    assert_eq!(v.offset, 16);
}

#[test]
fn scroll_enough_pulls_back_an_offset_past_the_end() {
    let mut v = window(10, 5, 0, 0);
    v.scroll_enough(11, 12);
    assert_eq!(v.offset, 7);
}

#[test]
fn scroll_with_margins_keeps_the_margins() {
    let mut v = window(10, 20, 3, 4);
    v.scroll_with_margins(11, 100);
    assert_eq!(v.offset, 8);
    let mut v = window(10, 20, 3, 4);
    v.scroll_with_margins(27, 100);
    assert_eq!(v.offset, 12);
    let mut v = window(10, 20, 3, 4);
    v.scroll_with_margins(20, 100);
    assert_eq!(v.offset, 10);
    let mut v = window(10, 20, 3, 4);
    v.scroll_with_margins(1, 100);
    assert_eq!(v.offset, 0);
}

#[test]
fn scroll_with_margins_larger_than_the_window_still_shows_the_row() {
    let mut v = window(0, 4, 10, 10);
    v.scroll_with_margins(30, 100);
    assert!(v.offset <= 30 && 30 < v.offset + 4);
    assert_eq!(v.offset, 30);
}

#[test]
fn follow_down_scrolls_one_row_inside_the_bottom_margin() {
    let mut v = window(0, 10, 2, 2);
    v.follow_down(7, 100);
    assert_eq!(v.offset, 0);
    v.follow_down(8, 100);
    assert_eq!(v.offset, 1);
    v.follow_down(9, 100);
    assert_eq!(v.offset, 2);
}

#[test]
fn follow_down_stops_at_the_end_of_the_document() {
    let mut v = window(2, 10, 2, 2);
    v.follow_down(11, 12);
    assert_eq!(v.offset, 2);
    let mut v = window(0, 10, 2, 2);
    v.follow_down(8, 9);
    assert_eq!(v.offset, 0);
}

#[test]
fn follow_up_scrolls_one_row_inside_the_top_margin() {
    let mut v = window(5, 10, 2, 2);
    v.follow_up(7, 100);
    assert_eq!(v.offset, 5);
    v.follow_up(6, 100);
    assert_eq!(v.offset, 4);
    let mut v = window(0, 10, 2, 2);
    v.follow_up(1, 100);
    assert_eq!(v.offset, 0);
}

#[test]
fn scroll_to_bottom_and_top() {
    let mut v = window(0, 10, 2, 2);
    v.scroll_to_bottom(99, 100);
    assert_eq!(v.offset, 90);
    v.scroll_to_top(100);
    assert_eq!(v.offset, 0);
    let mut v = window(0, 10, 2, 2);
    v.scroll_to_bottom(4, 5);
    assert_eq!(v.offset, 0);
}

#[test]
fn resize_keeps_the_row_in_view() {
    let mut v = window(10, 20, 2, 2);
    v.resize(5, 25, 100);
    assert_eq!(v.height, 5);
    assert_eq!(v.offset, 21);
    v.resize(0, 25, 100);
    assert_eq!(v.height, 1);
    assert_eq!(v.offset, 25);
    v.resize(50, 25, 100);
    assert_eq!(v.offset, 25);
    v.resize(200, 25, 100);
    assert_eq!(v.offset, 0);
}

#[test]
fn window_always_shows_the_caret_on_a_walk() {
    let count = 60;
    let mut v = window(0, 7, 3, 2);
    let mut row: usize = 0;
    let mut seed: u32 = 7;
    for _ in 0..3000 {
        seed = seed.wrapping_mul(1103515245).wrapping_add(12345);
        let before = v.offset;
        match (seed >> 16) % 6 {
            0 | 1 => {
                if row + 1 < count {
                    row += 1;
                    v.follow_down(row, count);
                    assert!(v.offset == before || v.offset == before + 1);
                }
            }
            2 | 3 => {
                if row > 0 {
                    row -= 1;
                    v.follow_up(row, count);
                    assert!(v.offset == before || v.offset + 1 == before);
                }
            }
            4 => {
                row = (seed as usize >> 8) % count;
                v.recenter(row, count);
            }
            _ => {
                row = (seed as usize >> 8) % count;
                v.scroll_with_margins(row, count);
            }
        }
        assert!(v.offset <= row && row < v.offset + v.height);
        assert!(v.offset <= count - v.height);
    }
}
