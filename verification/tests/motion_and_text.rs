use redit::buffer::{Buffer, Cursor};
use redit::document::{parse_lines, same_lines, serialize};
use redit::text::{has_class, skip_backward, skip_forward, CharClass};

fn chars(s: &str) -> Vec<char> {
    s.chars().collect()
}

fn doc(lines: &[&str]) -> Vec<Vec<char>> {
    lines.iter().map(|l| chars(l)).collect()
}

fn buffer(lines: &[&str], col: usize, row: usize) -> Buffer {
    Buffer::new(doc(lines), Cursor { col, row })
}

fn at(b: &Buffer) -> (usize, usize) {
    (b.cursor.col, b.cursor.row)
}

fn strings(lines: &Vec<Vec<char>>) -> Vec<String> {
    lines.iter().map(|l| l.iter().collect()).collect()
}

#[test]
fn move_up_and_down_clamp_the_column() {
    let mut b = buffer(&["abcdef", "ab", "abcd"], 5, 0);
    b.move_down();
    assert_eq!(at(&b), (2, 1));
    b.move_down();
    assert_eq!(at(&b), (2, 2));
    b.move_down();
    assert_eq!(at(&b), (2, 2));
    b.move_up();
    b.move_up();
    assert_eq!(at(&b), (2, 0));
    b.move_up();
    assert_eq!(at(&b), (2, 0));
}

#[test]
fn move_left_and_right_stop_at_the_line_ends() {
    let mut b = buffer(&["ab"], 1, 0);
    b.move_right();
    assert_eq!(at(&b), (2, 0));
    b.move_right();
    assert_eq!(at(&b), (2, 0));
    b.move_left();
    b.move_left();
    assert_eq!(at(&b), (0, 0));
    b.move_left();
    assert_eq!(at(&b), (0, 0));
}

#[test]
fn move_right_within_stops_on_the_last_character() {
    let mut b = buffer(&["abc", ""], 1, 0);
    b.move_right_within();
    assert_eq!(at(&b), (2, 0));
    b.move_right_within();
    assert_eq!(at(&b), (2, 0));
    let mut b = buffer(&[""], 0, 0);
    b.move_right_within();
    assert_eq!(at(&b), (0, 0));
}

#[test]
fn home_end_top_bottom() {
    let mut b = buffer(&["abc", "de"], 1, 0);
    b.move_end();
    assert_eq!(at(&b), (3, 0));
    b.move_home();
    assert_eq!(at(&b), (0, 0));
    b.move_to_bottom();
    assert_eq!(at(&b), (2, 1));
    b.move_to_top();
    assert_eq!(at(&b), (0, 0));
}

#[test]
fn back_to_indentation_finds_the_first_non_blank() {
    let mut b = buffer(&[" \t x"], 0, 0);
    b.back_to_indentation();
    assert_eq!(at(&b), (3, 0));
    let mut b = buffer(&["    "], 2, 0);
    b.back_to_indentation();
    assert_eq!(at(&b), (0, 0));
}

#[test]
fn mwim_beginning_toggles_between_text_start_and_line_start() {
    let mut b = buffer(&["   abc  "], 5, 0);
    b.mwim_beginning();
    assert_eq!(at(&b), (3, 0));
    b.mwim_beginning();
    assert_eq!(at(&b), (0, 0));
    b.mwim_beginning();
    assert_eq!(at(&b), (3, 0));
}

#[test]
fn mwim_end_toggles_between_text_end_and_line_end() {
    let mut b = buffer(&["   abc  "], 0, 0);
    b.mwim_end();
    assert_eq!(at(&b), (6, 0));
    b.mwim_end();
    assert_eq!(at(&b), (8, 0));
    b.mwim_end();
    assert_eq!(at(&b), (6, 0));
}

#[test]
fn mwim_on_a_blank_line() {
    let mut b = buffer(&["   "], 1, 0);
    b.mwim_beginning();
    assert_eq!(at(&b), (0, 0));
    b.mwim_end();
    assert_eq!(at(&b), (3, 0));
}

#[test]
fn goto_line_counts_from_one() {
    let mut b = buffer(&["a", "b", "c"], 1, 0);
    assert!(b.goto_line(3));
    assert_eq!(at(&b), (0, 2));
    assert!(b.goto_line(1));
    assert_eq!(at(&b), (0, 0));
    assert!(!b.goto_line(0));
    assert!(!b.goto_line(4));
    assert_eq!(at(&b), (0, 0));
}

#[test]
fn character_classes() {
    assert!(has_class(CharClass::Space, ' '));
    assert!(!has_class(CharClass::Space, '\t'));
    assert!(has_class(CharClass::Blank, '\t'));
    assert!(!has_class(CharClass::Blank, '\n'));
    for c in ['\t', '\n', '\u{0B}', '\u{0C}', '\r', ' ', '\u{85}', '\u{A0}', '\u{1680}', '\u{2000}',
        '\u{200A}', '\u{2028}', '\u{2029}', '\u{202F}', '\u{205F}', '\u{3000}']
    {
        assert!(has_class(CharClass::Whitespace, c));
    }
    for c in ['a', '}', '\u{200B}', '\u{1F}', '\u{FEFF}'] {
        assert!(!has_class(CharClass::Whitespace, c));
    }
}

#[test]
fn whitespace_class_agrees_with_the_standard_library() {
    let mut n: u32 = 0;
    while n <= 0x3100 {
        if let Some(c) = char::from_u32(n) {
            assert_eq!(has_class(CharClass::Whitespace, c), c.is_whitespace());
        }
        n += 1;
    }
}

#[test]
fn skipping_over_a_class() {
    let line = chars("  ab  ");
    assert_eq!(skip_forward(&line, CharClass::Space, 0), 2);
    assert_eq!(skip_forward(&line, CharClass::Space, 2), 2);
    assert_eq!(skip_forward(&line, CharClass::Space, 4), 6);
    assert_eq!(skip_backward(&line, CharClass::Space, 6), 4);
    assert_eq!(skip_backward(&line, CharClass::Space, 2), 0);
    assert_eq!(skip_backward(&line, CharClass::Space, 3), 3);
}

#[test]
fn parse_lines_splits_on_newlines() {
    assert_eq!(strings(&parse_lines(&chars("ab\ncd"))), vec!["ab", "cd"]);
    assert_eq!(strings(&parse_lines(&chars("ab\ncd\n"))), vec!["ab", "cd"]);
    assert_eq!(strings(&parse_lines(&chars("ab\n\ncd"))), vec!["ab", "", "cd"]);
    assert_eq!(strings(&parse_lines(&chars("\n"))), vec![""]);
    assert_eq!(strings(&parse_lines(&chars("\n\n"))), vec!["", ""]);
}

#[test]
fn parse_lines_of_empty_text_is_one_empty_line() {
    assert_eq!(strings(&parse_lines(&chars(""))), vec![""]);
}

#[test]
fn parse_lines_drops_carriage_returns_before_newlines() {
    assert_eq!(strings(&parse_lines(&chars("ab\r\ncd\r\n"))), vec!["ab", "cd"]);
    assert_eq!(strings(&parse_lines(&chars("ab\rcd\r"))), vec!["ab\rcd\r"]);
    assert_eq!(strings(&parse_lines(&chars("\r\n"))), vec![""]);
}

#[test]
fn parse_lines_agrees_with_the_standard_library() {
    for text in ["", "a", "a\n", "\na", "a\r\nb", "a\n\r\nb\r", "\r", "\r\r\n", "x\n\n\n", "\n\nx"] {
        let want: Vec<String> = text.lines().map(|l| l.to_string()).collect();
        let got = strings(&parse_lines(&chars(text)));
        if want.is_empty() {
            assert_eq!(got, vec![""]);
        } else {
            assert_eq!(got, want);
        }
    }
}

#[test]
fn serialize_joins_with_single_newlines() {
    assert_eq!(serialize(&doc(&["ab", "", "cd"])), chars("ab\n\ncd"));
    assert_eq!(serialize(&doc(&["ab"])), chars("ab"));
    assert_eq!(serialize(&doc(&[""])), chars(""));
    assert_eq!(serialize(&doc(&["", ""])), chars("\n"));
}

#[test]
fn same_lines_compares_contents() {
    assert!(same_lines(&doc(&["a", "b"]), &doc(&["a", "b"])));
    assert!(!same_lines(&doc(&["a", "b"]), &doc(&["a", "c"])));
    assert!(!same_lines(&doc(&["a", "b"]), &doc(&["a"])));
    assert!(!same_lines(&doc(&["ab"]), &doc(&["a"])));
}
