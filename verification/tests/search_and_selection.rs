use redit::buffer::{Buffer, Cursor};
use redit::search::{find_in_line, find_in_rows, occurs_at, rfind_in_line, rfind_in_rows};
use redit::selection::{end_of_span, gather, ordered};

fn chars(s: &str) -> Vec<char> {
    s.chars().collect()
}

fn doc(lines: &[&str]) -> Vec<Vec<char>> {
    lines.iter().map(|l| chars(l)).collect()
}

fn buffer(lines: &[&str], col: usize, row: usize) -> Buffer {
    Buffer::new(doc(lines), Cursor { col, row })
}

fn lines_of(b: &Buffer) -> Vec<String> {
    b.lines.iter().map(|l| l.iter().collect()).collect()
}

fn at(b: &Buffer) -> (usize, usize) {
    (b.cursor.col, b.cursor.row)
}

fn pos(col: usize, row: usize) -> Cursor {
    Cursor { col, row }
}

#[test]
fn occurs_at_matches_literally() {
    let line = chars("foo bar foo");
    assert!(occurs_at(&line, &chars("foo"), 0));
    assert!(occurs_at(&line, &chars("foo"), 8));
    assert!(!occurs_at(&line, &chars("foo"), 1));
    assert!(!occurs_at(&line, &chars("foo"), 9));
    assert!(!occurs_at(&line, &chars("foo"), 50));
    assert!(!occurs_at(&line, &chars("Foo"), 0));
    assert!(!occurs_at(&line, &chars(""), 0));
    assert!(occurs_at(&line, &chars("foo bar foo"), 0));
    assert!(!occurs_at(&line, &chars("foo bar foo!"), 0));
}

#[test]
fn find_in_line_finds_the_first_occurrence() {
    let line = chars("abcabcabc");
    assert_eq!(find_in_line(&line, &chars("bc"), 0), Some(1));
    assert_eq!(find_in_line(&line, &chars("bc"), 1), Some(1));
    assert_eq!(find_in_line(&line, &chars("bc"), 2), Some(4));
    assert_eq!(find_in_line(&line, &chars("bc"), 8), None);
    assert_eq!(find_in_line(&line, &chars("x"), 0), None);
    assert_eq!(find_in_line(&line, &chars(""), 0), None);
    assert_eq!(find_in_line(&line, &chars("a"), 100), None);
}

#[test]
fn rfind_in_line_finds_the_last_occurrence_before() {
    let line = chars("abcabcabc");
    assert_eq!(rfind_in_line(&line, &chars("bc"), 9), Some(7));
    assert_eq!(rfind_in_line(&line, &chars("bc"), 7), Some(4));
    assert_eq!(rfind_in_line(&line, &chars("bc"), 1), None);
    assert_eq!(rfind_in_line(&line, &chars("bc"), 0), None);
    assert_eq!(rfind_in_line(&line, &chars("bc"), 100), Some(7));
}

#[test]
fn find_in_rows_scans_in_document_order() {
    let d = doc(&["xx", "a foo", "foo", "b"]);
    assert_eq!(find_in_rows(&d, &chars("foo"), 0, 4), Some(pos(2, 1)));
    assert_eq!(find_in_rows(&d, &chars("foo"), 2, 4), Some(pos(0, 2)));
    assert_eq!(find_in_rows(&d, &chars("foo"), 3, 4), None);
    assert_eq!(find_in_rows(&d, &chars("foo"), 0, 1), None);
    assert_eq!(rfind_in_rows(&d, &chars("foo"), 0, 4), Some(pos(0, 2)));
    assert_eq!(rfind_in_rows(&d, &chars("foo"), 0, 2), Some(pos(2, 1)));
    assert_eq!(rfind_in_rows(&d, &chars("foo"), 0, 1), None);
}

#[test]
fn search_next_finds_the_match_after_the_caret() {
    let mut b = buffer(&["foo foo", "bar", "foo"], 0, 0);
    assert_eq!(b.search_next(&chars("foo")), Some(false));
    assert_eq!(at(&b), (4, 0));
    assert_eq!(b.search_next(&chars("foo")), Some(false));
    assert_eq!(at(&b), (0, 2));
}

#[test]
fn search_next_from_last_match_wraps_to_the_first() {
    let mut b = buffer(&["x foo", "bar", "foo y"], 0, 2);
    assert_eq!(b.search_next(&chars("foo")), Some(true));
    assert_eq!(at(&b), (2, 0));
}

#[test]
fn search_next_with_a_single_match_wraps_onto_it() {
    let mut b = buffer(&["x foo", "bar"], 2, 0);
    assert_eq!(b.search_next(&chars("foo")), Some(true));
    assert_eq!(at(&b), (2, 0));
}

#[test]
fn search_next_wraps_to_a_match_earlier_on_the_same_line() {
    let mut b = buffer(&["foo x", "bar"], 3, 0);
    assert_eq!(b.search_next(&chars("foo")), Some(true));
    assert_eq!(at(&b), (0, 0));
}

#[test]
fn search_next_not_found_leaves_the_caret() {
    let mut b = buffer(&["abc", "def"], 1, 1);
    assert_eq!(b.search_next(&chars("zzz")), None);
    assert_eq!(at(&b), (1, 1));
    assert_eq!(lines_of(&b), vec!["abc", "def"]);
}

#[test]
fn search_with_empty_query_finds_nothing() {
    let mut b = buffer(&["abc", "def"], 1, 1);
    assert_eq!(b.search_next(&chars("")), None);
    assert_eq!(b.search_previous(&chars("")), None);
    assert_eq!(at(&b), (1, 1));
}

#[test]
fn search_is_case_sensitive() {
    let mut b = buffer(&["Foo", "foo"], 0, 0);
    assert_eq!(b.search_next(&chars("foo")), Some(false));
    assert_eq!(at(&b), (0, 1));
    assert_eq!(b.search_next(&chars("FOO")), None);
}

#[test]
fn search_previous_finds_the_match_before_the_caret() {
    let mut b = buffer(&["foo foo", "bar", "foo"], 0, 2);
    assert_eq!(b.search_previous(&chars("foo")), Some(false));
    assert_eq!(at(&b), (4, 0));
    assert_eq!(b.search_previous(&chars("foo")), Some(false));
    assert_eq!(at(&b), (0, 0));
}

#[test]
fn search_previous_from_first_match_wraps_to_the_last() {
    let mut b = buffer(&["foo", "bar foo", "baz"], 0, 0);
    assert_eq!(b.search_previous(&chars("foo")), Some(true));
    assert_eq!(at(&b), (4, 1));
}

#[test]
fn search_previous_not_found_leaves_the_caret() {
    let mut b = buffer(&["abc", "def"], 2, 0);
    assert_eq!(b.search_previous(&chars("q")), None);
    assert_eq!(at(&b), (2, 0));
}

#[test]
fn ordered_sorts_by_row_then_column() {
    assert_eq!(ordered(pos(5, 0), pos(1, 1)), (pos(5, 0), pos(1, 1)));
    assert_eq!(ordered(pos(1, 1), pos(5, 0)), (pos(5, 0), pos(1, 1)));
    assert_eq!(ordered(pos(3, 2), pos(1, 2)), (pos(1, 2), pos(3, 2)));
    assert_eq!(ordered(pos(1, 2), pos(1, 2)), (pos(1, 2), pos(1, 2)));
}

#[test]
fn end_of_span_steps_over_one_position() {
    let d = doc(&["ab", "cd"]);
    assert_eq!(end_of_span(&d, pos(0, 0)), pos(1, 0));
    assert_eq!(end_of_span(&d, pos(1, 0)), pos(2, 0));
    assert_eq!(end_of_span(&d, pos(2, 0)), pos(0, 1));
    assert_eq!(end_of_span(&d, pos(2, 1)), pos(2, 1));
}

#[test]
fn gather_joins_lines_with_newlines() {
    let d = doc(&["abc", "de", "fgh"]);
    assert_eq!(gather(&d, pos(1, 0), 2, 2), chars("bc\nde\nfg"));
    assert_eq!(gather(&d, pos(3, 0), 1, 0), chars("\n"));
    assert_eq!(gather(&d, pos(0, 1), 2, 3), chars("de\nfgh"));
}

#[test]
fn copy_across_two_lines() {
    let mut b = buffer(&["ab", "cd"], 1, 1);
    let text = b.copy_selection(pos(1, 0), pos(1, 1));
    assert_eq!(text, chars("b\nc"));
    assert_eq!(lines_of(&b), vec!["ab", "cd"]);
    assert_eq!(at(&b), (1, 0));
}

#[test]
fn copy_within_one_line_includes_both_ends() {
    let mut b = buffer(&["hello world"], 4, 0);
    let text = b.copy_selection(pos(4, 0), pos(1, 0));
    assert_eq!(text, chars("ello"));
    assert_eq!(lines_of(&b), vec!["hello world"]);
    assert_eq!(at(&b), (1, 0));
}

#[test]
fn copy_normalizes_by_row_before_column() {
    let mut b = buffer(&["abcdef", "gh"], 0, 1);
    let text = b.copy_selection(pos(0, 1), pos(4, 0));
    assert_eq!(text, chars("ef\n"));
    assert_eq!(at(&b), (4, 0));
}

#[test]
fn copy_over_several_lines() {
    let mut b = buffer(&["abc", "de", "", "fgh"], 0, 0);
    let text = b.copy_selection(pos(1, 0), pos(2, 3));
    assert_eq!(text, chars("bc\nde\n\nfg"));
    assert_eq!(lines_of(&b), vec!["abc", "de", "", "fgh"]);
}

#[test]
fn copy_of_a_line_end_takes_the_line_break() {
    let mut b = buffer(&["ab", "cd"], 2, 0);
    let text = b.copy_selection(pos(2, 0), pos(2, 0));
    assert_eq!(text, chars("\n"));
}

#[test]
fn selected_text_includes_both_ends() {
    let b = buffer(&["ab", "cd"], 0, 0);
    assert_eq!(b.selected_text(pos(1, 0), pos(1, 1)), chars("b\ncd"));
    assert_eq!(b.selected_text(pos(1, 1), pos(1, 0)), chars("b\ncd"));
    assert_eq!(b.selected_text(pos(0, 0), pos(0, 0)), chars("a"));
    assert_eq!(b.selected_text(pos(2, 0), pos(2, 0)), chars("\n"));
    assert_eq!(b.selected_text(pos(2, 1), pos(2, 1)), chars(""));
}

#[test]
fn delete_within_one_line() {
    let mut b = buffer(&["hello world"], 0, 0);
    let removed = b.delete_selection(pos(2, 0), pos(6, 0));
    assert_eq!(removed, chars("llo w"));
    assert_eq!(lines_of(&b), vec!["heorld"]);
    assert_eq!(at(&b), (2, 0));
}

#[test]
fn delete_across_lines_merges_the_rest() {
    let mut b = buffer(&["abc", "middle", "xyz", "tail"], 0, 0);
    let removed = b.delete_selection(pos(1, 2), pos(1, 0));
    assert_eq!(removed, chars("bc\nmiddle\nxy"));
    assert_eq!(lines_of(&b), vec!["az", "tail"]);
    assert_eq!(at(&b), (1, 0));
}

#[test]
fn delete_up_to_a_line_end_takes_the_line_break() {
    let mut b = buffer(&["ab", "cd"], 0, 0);
    let removed = b.delete_selection(pos(1, 0), pos(2, 0));
    assert_eq!(removed, chars("b\n"));
    assert_eq!(lines_of(&b), vec!["acd"]);
    assert_eq!(at(&b), (1, 0));
}

#[test]
fn delete_at_the_end_of_the_document_removes_nothing() {
    let mut b = buffer(&["ab"], 0, 0);
    let removed = b.delete_selection(pos(2, 0), pos(2, 0));
    assert_eq!(removed, chars(""));
    assert_eq!(lines_of(&b), vec!["ab"]);
    assert_eq!(at(&b), (2, 0));
}

#[test]
fn delete_then_paste_before_restores_a_line() {
    for (a, b2) in [((0, 0), (0, 0)), ((1, 0), (3, 0)), ((4, 0), (0, 0)), ((2, 1), (0, 1))] {
        let mut b = buffer(&["hello", "wor"], 0, 0);
        let removed = b.delete_selection(pos(a.0, a.1), pos(b2.0, b2.1));
        let r = redit::register::Register { text: removed, kind: redit::register::RegisterKind::Charwise };
        b.paste(&r, false);
        assert_eq!(lines_of(&b), vec!["hello", "wor"]);
    }
}

#[test]
fn delete_then_paste_before_restores_the_document_across_lines() {
    let spans = [((3, 0), (1, 2)), ((0, 0), (5, 2)), ((5, 0), (0, 1)), ((5, 0), (5, 0)), ((2, 1), (3, 1)),
        ((0, 1), (3, 1)), ((5, 2), (0, 0))];
    for (a, b2) in spans {
        let mut b = buffer(&["hello", "big", "world"], 0, 0);
        let removed = b.delete_selection(pos(a.0, a.1), pos(b2.0, b2.1));
        let start = at(&b);
        let r = redit::register::Register { text: removed, kind: redit::register::RegisterKind::Charwise };
        b.paste(&r, false);
        assert_eq!(lines_of(&b), vec!["hello", "big", "world"]);
        assert!(b.is_valid());
        assert!(start.1 <= b.cursor.row);
    }
    let mut b = buffer(&["hello", "big", "world"], 0, 0);
    let removed = b.delete_selection(pos(3, 0), pos(1, 2));
    assert_eq!(removed, chars("lo\nbig\nwo"));
    assert_eq!(lines_of(&b), vec!["helrld"]);
}

#[test]
fn paste_breaks_the_line_at_newlines() {
    let mut b = buffer(&["abcd", "z"], 2, 0);
    let r = redit::register::Register { text: chars("X\nYY\nZZZ"), kind: redit::register::RegisterKind::Charwise };
    b.paste(&r, false);
    assert_eq!(lines_of(&b), vec!["abX", "YY", "ZZZcd", "z"]);
    assert_eq!(at(&b), (3, 2));
    let mut b = buffer(&["abcd", "z"], 2, 0);
    b.paste(&r, true);
    assert_eq!(lines_of(&b), vec!["abcX", "YY", "ZZZd", "z"]);
    assert_eq!(at(&b), (3, 2));
    let mut b = buffer(&["abcd"], 4, 0);
    let r = redit::register::Register { text: chars("\n"), kind: redit::register::RegisterKind::Charwise };
    b.paste(&r, true);
    assert_eq!(lines_of(&b), vec!["abcd", ""]);
    assert_eq!(at(&b), (0, 1));
    let mut b = buffer(&["abcd"], 1, 0);
    let r = redit::register::Register { text: chars(""), kind: redit::register::RegisterKind::Charwise };
    b.paste(&r, false);
    assert_eq!(lines_of(&b), vec!["abcd"]);
    assert_eq!(at(&b), (1, 0));
}

#[test]
fn split_text_at_newlines() {
    let parts = |s: &str| -> Vec<String> {
        redit::edit::split_text(&chars(s)).iter().map(|l| l.iter().collect()).collect()
    };
    assert_eq!(parts(""), vec![""]);
    assert_eq!(parts("ab"), vec!["ab"]);
    assert_eq!(parts("a\nb"), vec!["a", "b"]);
    assert_eq!(parts("\n"), vec!["", ""]);
    assert_eq!(parts("a\n\nb\n"), vec!["a", "", "b", ""]);
    for text in ["x\ny\n", "\n\n", "abc", "\nabc"] {
        let want: Vec<String> = text.split('\n').map(|p| p.to_string()).collect();
        assert_eq!(parts(text), want);
    }
}

#[test]
fn copy_then_paste_only_adds_the_copy() {
    let mut b = buffer(&["hello", "world"], 3, 0);
    let text = b.copy_selection(pos(1, 0), pos(3, 0));
    assert_eq!(lines_of(&b), vec!["hello", "world"]);
    let r = redit::register::Register { text, kind: redit::register::RegisterKind::Charwise };
    b.paste(&r, true);
    assert_eq!(lines_of(&b), vec!["heellllo", "world"]);
}

#[test]
fn clamp_moves_a_position_into_the_document() {
    let b = buffer(&["ab", "c"], 0, 0);
    assert_eq!(b.clamp(pos(1, 0)), pos(1, 0));
    assert_eq!(b.clamp(pos(5, 0)), pos(2, 0));
    assert_eq!(b.clamp(pos(5, 7)), pos(1, 1));
}
