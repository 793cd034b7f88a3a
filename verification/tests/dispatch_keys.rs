use redit::bindings::{bind, dired_binding, insert_binding, normal_binding, to_upper_case, visual_binding, Action};
use redit::buffer::Cursor;
use redit::command::Op;
use redit::dispatch::{is_one, is_two, parse_line_number};
use redit::editor::Editor;
use redit::keys::{Key, KeyCode, Keychords, Modifiers};
use redit::register::RegisterKind;
use redit::session::{Mode, Notice, Prompt, Selection};

fn chars(s: &str) -> Vec<char> {
    s.chars().collect()
}

fn editor(text: &str) -> Editor {
    let mut e = Editor::new(10);
    e.open(&chars(text));
    e
}

fn lines_of(e: &Editor) -> Vec<String> {
    e.buffer.lines.iter().map(|l| l.iter().collect()).collect()
}

fn at(e: &Editor) -> (usize, usize) {
    (e.buffer.cursor.col, e.buffer.cursor.row)
}

fn plain(c: char) -> Key {
    Key { code: KeyCode::Char(c), mods: Modifiers::Plain }
}

fn ctrl(c: char) -> Key {
    Key { code: KeyCode::Char(c), mods: Modifiers::Control }
}

fn shift(c: char) -> Key {
    Key { code: KeyCode::Char(c), mods: Modifiers::Shift }
}

fn alt(c: char) -> Key {
    Key { code: KeyCode::Char(c), mods: Modifiers::Alt }
}

fn special(code: KeyCode) -> Key {
    Key { code, mods: Modifiers::Plain }
}

fn press(e: &mut Editor, keys: &[Key]) -> Action {
    let mut last = Action::Idle;
    for k in keys {
        last = e.handle_keys(*k, false);
        assert!(e.is_valid());
    }
    last
}

fn type_text(e: &mut Editor, text: &str) {
    for c in text.chars() {
        assert_eq!(e.handle_keys(plain(c), false), Action::Idle);
    }
}

#[test]
fn keychords_start_clear_and_reset() {
    let mut k = Keychords::new();
    assert!(!k.ctrl_x_pressed);
    k.ctrl_x_pressed = true;
    k.reset();
    assert!(!k.ctrl_x_pressed);
}

#[test]
fn upper_case_of_ascii_letters() {
    assert_eq!(to_upper_case('a'), 'A');
    assert_eq!(to_upper_case('z'), 'Z');
    assert_eq!(to_upper_case('A'), 'A');
    assert_eq!(to_upper_case('1'), '1');
    assert_eq!(to_upper_case('{'), '{');
    assert_eq!(to_upper_case('\u{E9}'), '\u{E9}');
    for c in ['q', 'Q', '`', '~', '\u{DF}'] {
        assert_eq!(to_upper_case(c), c.to_ascii_uppercase());
    }
}

#[test]
fn line_numbers_are_parsed() {
    assert_eq!(parse_line_number(&chars("12")), Some(12));
    assert_eq!(parse_line_number(&chars("0")), Some(0));
    assert_eq!(parse_line_number(&chars("007")), Some(7));
    assert_eq!(parse_line_number(&chars("+5")), Some(5));
    assert_eq!(parse_line_number(&chars("")), None);
    assert_eq!(parse_line_number(&chars("+")), None);
    assert_eq!(parse_line_number(&chars("-5")), None);
    assert_eq!(parse_line_number(&chars("1a")), None);
    assert_eq!(parse_line_number(&chars(" 1")), None);
    assert_eq!(parse_line_number(&chars("++1")), None);
    assert_eq!(parse_line_number(&chars("1+")), None);
}

#[test]
fn line_numbers_that_do_not_fit_are_rejected() {
    let max = usize::MAX.to_string();
    assert_eq!(parse_line_number(&chars(&max)), Some(usize::MAX));
    let mut over = max.clone();
    over.push('0');
    assert_eq!(parse_line_number(&chars(&over)), None);
    let next = (usize::MAX as u128 + 1).to_string();
    assert_eq!(parse_line_number(&chars(&next)), None);
    for text in ["18446744073709551615", "18446744073709551616", "99999999999999999999", "42"] {
        assert_eq!(parse_line_number(&chars(text)), text.parse::<usize>().ok());
    }
}

#[test]
fn short_texts_are_recognised() {
    assert!(is_one(&chars("w"), 'w'));
    assert!(!is_one(&chars("wq"), 'w'));
    assert!(!is_one(&chars(""), 'w'));
    assert!(is_two(&chars("wq"), 'w', 'q'));
    assert!(!is_two(&chars("qw"), 'w', 'q'));
    assert!(!is_two(&chars("w"), 'w', 'q'));
}

#[test]
fn normal_bindings() {
    assert_eq!(normal_binding(ctrl('x'), false), bind(Op::ArmChord, Op::Idle, Action::Idle));
    assert_eq!(normal_binding(ctrl('s'), true), bind(Op::Idle, Op::Idle, Action::Save));
    assert_eq!(normal_binding(ctrl('s'), false), bind(Op::Idle, Op::Idle, Action::Idle));
    assert_eq!(
        normal_binding(ctrl('f'), true),
        bind(Op::Ask(Prompt::FindFile), Op::Idle, Action::PromptFindFile)
    );
    assert_eq!(normal_binding(ctrl('f'), false), bind(Op::ToggleFringe, Op::Idle, Action::Idle));
    assert_eq!(normal_binding(ctrl('j'), true), bind(Op::DropChord, Op::Idle, Action::DiredJump));
    assert_eq!(normal_binding(ctrl('j'), false), bind(Op::Enter, Op::Snapshot, Action::Idle));
    assert_eq!(normal_binding(ctrl('k'), false), bind(Op::KillLine, Op::Snapshot, Action::Idle));
    assert_eq!(normal_binding(ctrl('p'), false), bind(Op::Idle, Op::Idle, Action::ShowHighlights));
    assert_eq!(normal_binding(shift('G'), false), bind(Op::Bottom, Op::Idle, Action::Idle));
    assert_eq!(normal_binding(shift('O'), false), bind(Op::Snapshot, Op::OpenAbove, Action::Idle));
    assert_eq!(normal_binding(shift('g'), false), bind(Op::Idle, Op::Idle, Action::Idle));
    assert_eq!(normal_binding(alt('x'), false), bind(Op::Idle, Op::Idle, Action::OpenCommands));
    assert_eq!(normal_binding(alt('!'), false), bind(Op::Ask(Prompt::Shell), Op::Idle, Action::Idle));
    assert_eq!(
        normal_binding(Key { code: KeyCode::Char(':'), mods: Modifiers::AltShift }, false),
        bind(Op::Ask(Prompt::Eval), Op::Idle, Action::Idle)
    );
    assert_eq!(normal_binding(plain('f'), false), bind(Op::Idle, Op::Idle, Action::OpenFinder));
    assert_eq!(normal_binding(plain('d'), false), bind(Op::Idle, Op::Idle, Action::DiredJump));
    assert_eq!(normal_binding(plain('e'), false), bind(Op::Idle, Op::Idle, Action::EvalLine));
    assert_eq!(normal_binding(plain('q'), false), bind(Op::Idle, Op::Idle, Action::Quit));
    assert_eq!(normal_binding(plain('x'), false), bind(Op::DeleteChar, Op::Snapshot, Action::Idle));
    assert_eq!(normal_binding(special(KeyCode::Tab), false), bind(Op::Indent, Op::Snapshot, Action::Idle));
    assert_eq!(normal_binding(shift('J'), false), bind(Op::Join, Op::Snapshot, Action::Idle));
    assert_eq!(normal_binding(shift('P'), false), bind(Op::Paste(false), Op::Snapshot, Action::Idle));
    assert_eq!(normal_binding(plain('p'), false), bind(Op::Paste(true), Op::Snapshot, Action::Idle));
    assert_eq!(visual_binding(plain('x')), bind(Op::DeleteSelection, Op::Snapshot, Action::Idle));
    assert_eq!(normal_binding(special(KeyCode::Enter), false), bind(Op::Idle, Op::Idle, Action::Idle));
    assert_eq!(
        normal_binding(Key { code: KeyCode::Char('x'), mods: Modifiers::Other }, false),
        bind(Op::Idle, Op::Idle, Action::Idle)
    );
}

#[test]
fn insert_visual_and_dired_bindings() {
    assert_eq!(insert_binding(shift('a')), bind(Op::InsertPlain('A'), Op::Idle, Action::Idle));
    assert_eq!(insert_binding(plain('(')), bind(Op::Insert('('), Op::Idle, Action::Idle));
    assert_eq!(insert_binding(ctrl('a')), bind(Op::MwimBeginning, Op::Idle, Action::Idle));
    assert_eq!(insert_binding(ctrl('e')), bind(Op::MwimEnd, Op::Idle, Action::Idle));
    assert_eq!(
        insert_binding(ctrl('s')),
        bind(Op::Right, Op::Ask(Prompt::InsertSearch), Action::Idle)
    );
    assert_eq!(insert_binding(ctrl('z')), bind(Op::Idle, Op::Idle, Action::Idle));
    assert_eq!(insert_binding(alt('a')), bind(Op::Idle, Op::Idle, Action::Idle));
    assert_eq!(visual_binding(plain('e')), bind(Op::Track, Op::Idle, Action::EvalRegion));
    assert_eq!(visual_binding(ctrl('y')), bind(Op::CopySelection, Op::Idle, Action::Idle));
    assert_eq!(visual_binding(plain('z')), bind(Op::Track, Op::Idle, Action::Idle));
    assert_eq!(visual_binding(special(KeyCode::Right)), bind(Op::RightWithin, Op::Track, Action::Idle));
    assert_eq!(dired_binding(plain('j')), bind(Op::Idle, Op::Idle, Action::Browse));
    assert_eq!(dired_binding(special(KeyCode::Enter)), bind(Op::Idle, Op::Idle, Action::Browse));
    assert_eq!(dired_binding(plain('d')), bind(Op::Ask(Prompt::CreateDirectory), Op::Idle, Action::Idle));
    assert_eq!(dired_binding(plain('q')), bind(Op::Go(Mode::Normal), Op::Idle, Action::Idle));
    assert_eq!(dired_binding(plain('z')), bind(Op::Idle, Op::Idle, Action::Idle));
}

#[test]
fn insert_session_types_text_and_undoes_it() {
    let mut e = editor("");
    press(&mut e, &[plain('i')]);
    assert_eq!(e.mode, Mode::Insert);
    type_text(&mut e, "fn f");
    press(&mut e, &[plain('('), special(KeyCode::Enter), shift('x'), special(KeyCode::Esc)]);
    assert_eq!(lines_of(&e), vec!["fn f(", "X)"]);
    assert_eq!(at(&e), (1, 1));
    assert_eq!(e.mode, Mode::Normal);
    assert_eq!(e.history.len(), 2);
    press(&mut e, &[plain('u')]);
    assert_eq!(lines_of(&e), vec![""]);
    assert_eq!(at(&e), (0, 0));
    press(&mut e, &[ctrl('r')]);
    assert_eq!(lines_of(&e), vec!["fn f(", "X)"]);
}

#[test]
fn normal_mode_moves_and_edits() {
    let mut e = editor("abc\ndef");
    press(&mut e, &[plain('l'), plain('j')]);
    assert_eq!(at(&e), (1, 1));
    press(&mut e, &[plain('x')]);
    assert_eq!(lines_of(&e), vec!["abc", "df"]);
    assert_eq!(e.history.len(), 2);
    press(&mut e, &[plain('k'), shift('J')]);
    assert_eq!(lines_of(&e), vec!["abc df"]);
    press(&mut e, &[plain('0'), shift('A')]);
    assert_eq!(at(&e), (6, 0));
    assert_eq!(e.mode, Mode::Insert);
    press(&mut e, &[special(KeyCode::Esc), plain('y'), plain('p')]);
    assert_eq!(lines_of(&e), vec!["abc df", "abc df"]);
    assert_eq!(at(&e), (0, 1));
    press(&mut e, &[shift('G')]);
    assert_eq!(at(&e), (6, 1));
    press(&mut e, &[plain('g')]);
    assert_eq!(at(&e), (0, 0));
}

#[test]
fn chord_save_and_chord_reset() {
    let mut e = editor("abc");
    assert_eq!(press(&mut e, &[ctrl('s')]), Action::Idle);
    assert_eq!(press(&mut e, &[ctrl('x')]), Action::Idle);
    assert!(e.keychords.ctrl_x_pressed);
    assert_eq!(press(&mut e, &[ctrl('s')]), Action::Save);
    assert!(e.keychords.ctrl_x_pressed);
    assert_eq!(press(&mut e, &[plain('l')]), Action::Idle);
    assert!(!e.keychords.ctrl_x_pressed);
    assert_eq!(press(&mut e, &[ctrl('s')]), Action::Idle);
    press(&mut e, &[ctrl('x')]);
    assert_eq!(press(&mut e, &[ctrl('j')]), Action::DiredJump);
    assert!(!e.keychords.ctrl_x_pressed);
    assert_eq!(lines_of(&e), vec!["abc"]);
    press(&mut e, &[ctrl('x')]);
    assert_eq!(press(&mut e, &[ctrl('f')]), Action::PromptFindFile);
    assert_eq!(e.prompt, Some(Prompt::FindFile));
}

#[test]
fn toggles() {
    let mut e = editor("abc");
    press(&mut e, &[ctrl('f')]);
    assert!(!e.settings.show_fringe);
    press(&mut e, &[ctrl('l')]);
    assert!(!e.settings.show_line_numbers);
    press(&mut e, &[ctrl('f'), ctrl('l')]);
    assert!(e.settings.show_fringe && e.settings.show_line_numbers);
}

#[test]
fn command_line_goes_to_a_line() {
    let mut e = editor("a\nb\nc\nd");
    press(&mut e, &[plain(':')]);
    assert_eq!(e.prompt, Some(Prompt::Command));
    type_text(&mut e, "3");
    assert_eq!(e.input, chars("3"));
    assert_eq!(lines_of(&e), vec!["a", "b", "c", "d"]);
    assert_eq!(press(&mut e, &[special(KeyCode::Enter)]), Action::Idle);
    assert_eq!(e.prompt, None);
    assert_eq!(e.entered, chars("3"));
    assert_eq!(e.input, chars(""));
    assert_eq!(at(&e), (0, 2));
}

#[test]
fn command_line_commands() {
    for (text, action) in [("w", Action::Save), ("q", Action::Quit), ("wq", Action::SaveAndQuit)] {
        let mut e = editor("a\nb");
        press(&mut e, &[plain(':')]);
        type_text(&mut e, text);
        assert_eq!(press(&mut e, &[special(KeyCode::Enter)]), action);
        assert!(e.notices.is_empty());
        assert_eq!(e.prompt, None);
    }
}

#[test]
fn command_line_rejects_what_it_does_not_know() {
    let mut e = editor("a\nb");
    press(&mut e, &[plain(':')]);
    type_text(&mut e, "nope");
    assert_eq!(press(&mut e, &[special(KeyCode::Enter)]), Action::Idle);
    assert_eq!(e.notices, vec![Notice::InvalidCommand]);
    press(&mut e, &[plain(':')]);
    type_text(&mut e, "9");
    press(&mut e, &[special(KeyCode::Enter)]);
    assert_eq!(e.notices, vec![Notice::InvalidCommand, Notice::NoSuchLine(9)]);
    press(&mut e, &[plain(':'), special(KeyCode::Enter)]);
    assert_eq!(e.notices.len(), 3);
    assert_eq!(e.notices[2], Notice::InvalidCommand);
    assert_eq!(at(&e), (0, 0));
}

#[test]
fn minibuffer_editing() {
    let mut e = editor("abc");
    press(&mut e, &[alt('!')]);
    assert_eq!(e.prompt, Some(Prompt::Shell));
    type_text(&mut e, "lsx");
    press(&mut e, &[special(KeyCode::Backspace)]);
    assert_eq!(e.input, chars("ls"));
    press(&mut e, &[special(KeyCode::Tab), shift('A'), ctrl('b')]);
    assert_eq!(e.input, chars("lsAb"));
    assert_eq!(lines_of(&e), vec!["abc"]);
    assert_eq!(e.mode, Mode::Normal);
    press(&mut e, &[special(KeyCode::Backspace), special(KeyCode::Backspace)]);
    assert_eq!(press(&mut e, &[special(KeyCode::Enter)]), Action::Shell);
    assert_eq!(e.entered, chars("ls"));
    assert_eq!(e.prompt, None);
    press(&mut e, &[alt('!'), special(KeyCode::Backspace)]);
    assert_eq!(e.input, chars(""));
}

#[test]
fn prompts_hand_their_line_to_the_host() {
    let cases = [
        (ctrl('t'), Prompt::SwitchTheme, Action::SwitchTheme),
        (Key { code: KeyCode::Char(':'), mods: Modifiers::AltShift }, Prompt::Eval, Action::Eval),
        (alt('!'), Prompt::Shell, Action::Shell),
    ];
    for (key, prompt, action) in cases {
        let mut e = editor("abc");
        press(&mut e, &[key]);
        assert_eq!(e.prompt, Some(prompt));
        type_text(&mut e, "xyz");
        assert_eq!(press(&mut e, &[special(KeyCode::Enter)]), action);
        assert_eq!(e.entered, chars("xyz"));
    }
    let mut e = editor("abc");
    press(&mut e, &[ctrl('x'), ctrl('f')]);
    type_text(&mut e, "a.txt");
    assert_eq!(press(&mut e, &[special(KeyCode::Enter)]), Action::Open);
    assert_eq!(e.entered, chars("a.txt"));
}

#[test]
fn search_prompt_sets_the_query_and_moves() {
    let mut e = editor("one two\nthree two\nfour");
    press(&mut e, &[plain('/')]);
    assert!(e.searching);
    assert!(e.highlight);
    assert_eq!(e.prompt, Some(Prompt::Search));
    type_text(&mut e, "two");
    press(&mut e, &[special(KeyCode::Enter)]);
    assert_eq!(e.query, chars("two"));
    assert_eq!(at(&e), (4, 0));
    assert!(e.notices.is_empty());
    press(&mut e, &[plain('n')]);
    assert_eq!(at(&e), (6, 1));
    press(&mut e, &[plain('n')]);
    assert_eq!(at(&e), (4, 0));
    press(&mut e, &[shift('N')]);
    assert_eq!(at(&e), (6, 1));
    press(&mut e, &[special(KeyCode::Esc)]);
    assert!(!e.highlight);
}

#[test]
fn search_prompt_for_a_missing_text_stays_silent() {
    let mut e = editor("one two");
    press(&mut e, &[plain('/')]);
    type_text(&mut e, "zzz");
    press(&mut e, &[special(KeyCode::Enter)]);
    assert_eq!(e.query, chars("zzz"));
    assert_eq!(at(&e), (0, 0));
    assert!(e.notices.is_empty());
    press(&mut e, &[plain('n')]);
    assert_eq!(e.notices, vec![Notice::NotFound]);
}

#[test]
fn escape_in_the_minibuffer_cancels_and_reaches_the_mode() {
    let mut e = editor("abc");
    e.query = chars("old");
    press(&mut e, &[plain('/')]);
    type_text(&mut e, "ne");
    assert!(e.highlight);
    press(&mut e, &[special(KeyCode::Esc)]);
    assert_eq!(e.prompt, None);
    assert_eq!(e.input, chars(""));
    assert_eq!(e.query, chars(""));
    assert!(!e.searching);
    assert!(!e.highlight);
}

#[test]
fn visual_mode_selects_and_copies() {
    let mut e = editor("ab\ncd");
    press(&mut e, &[plain('l'), plain('v')]);
    assert_eq!(e.mode, Mode::Visual);
    press(&mut e, &[plain('j')]);
    assert_eq!(
        e.selection,
        Some(Selection { anchor: Cursor { col: 1, row: 0 }, active: Cursor { col: 1, row: 1 } })
    );
    press(&mut e, &[plain('y')]);
    assert_eq!(e.register.text, chars("b\nc"));
    assert_eq!(e.register.kind, RegisterKind::Charwise);
    assert_eq!(e.mode, Mode::Normal);
    assert_eq!(e.selection, None);
    assert_eq!(at(&e), (1, 0));
}

#[test]
fn visual_mode_cuts_and_cancels() {
    let mut e = editor("hello world");
    press(&mut e, &[plain('v'), plain('l'), plain('l'), plain('h'), plain('x')]);
    assert_eq!(lines_of(&e), vec!["llo world"]);
    assert_eq!(e.register.text, chars("he"));
    assert_eq!(e.mode, Mode::Normal);
    press(&mut e, &[plain('v'), plain('l')]);
    assert!(e.selection.is_some());
    press(&mut e, &[special(KeyCode::Esc)]);
    assert_eq!(e.mode, Mode::Normal);
    assert_eq!(e.selection, None);
    press(&mut e, &[plain('v'), plain('v')]);
    assert_eq!(e.mode, Mode::Normal);
    assert_eq!(e.selection, None);
    assert_eq!(lines_of(&e), vec!["llo world"]);
}

#[test]
fn visual_mode_right_stays_on_the_last_character() {
    let mut e = editor("ab");
    press(&mut e, &[plain('v'), plain('l'), plain('l'), plain('l')]);
    assert_eq!(at(&e), (1, 0));
    assert_eq!(press(&mut e, &[plain('e')]), Action::EvalRegion);
    assert_eq!(e.eval_region(), Ok(chars("ab")));
    assert_eq!(e.mode, Mode::Visual);
}

#[test]
fn insert_mode_control_keys() {
    let mut e = editor("  ab\ncd");
    press(&mut e, &[plain('i'), ctrl('e')]);
    assert_eq!(at(&e), (4, 0));
    press(&mut e, &[ctrl('a')]);
    assert_eq!(at(&e), (2, 0));
    press(&mut e, &[ctrl('n'), ctrl('b'), ctrl('p'), ctrl('f'), ctrl('f')]);
    assert_eq!(at(&e), (3, 0));
    press(&mut e, &[special(KeyCode::Backspace)]);
    assert_eq!(lines_of(&e), vec!["  b", "cd"]);
    e.register.store(chars("XY"), RegisterKind::Charwise);
    press(&mut e, &[ctrl('v')]);
    assert_eq!(lines_of(&e), vec!["  XYb", "cd"]);
    press(&mut e, &[ctrl('s')]);
    assert_eq!(e.prompt, Some(Prompt::InsertSearch));
    assert!(e.searching);
    assert_eq!(at(&e), (5, 0));
    type_text(&mut e, "cd");
    assert_eq!(press(&mut e, &[special(KeyCode::Enter)]), Action::Idle);
    assert_eq!(at(&e), (5, 0));
    assert_eq!(e.query, chars(""));
    assert_eq!(lines_of(&e), vec!["  XYb", "cd"]);
}

#[test]
fn dired_mode_keys() {
    let mut e = editor("abc");
    e.set_mode(Mode::Dired);
    assert_eq!(press(&mut e, &[plain('j')]), Action::Browse);
    assert_eq!(press(&mut e, &[special(KeyCode::Enter)]), Action::Browse);
    assert_eq!(press(&mut e, &[plain('t')]), Action::Idle);
    assert_eq!(e.prompt, Some(Prompt::Touch));
    type_text(&mut e, "new.txt");
    assert_eq!(press(&mut e, &[special(KeyCode::Enter)]), Action::Touch);
    assert_eq!(e.entered, chars("new.txt"));
    press(&mut e, &[shift('T')]);
    assert_eq!(e.prompt, Some(Prompt::TouchOpen));
    assert_eq!(press(&mut e, &[special(KeyCode::Enter)]), Action::TouchOpen);
    press(&mut e, &[plain('d')]);
    assert_eq!(press(&mut e, &[special(KeyCode::Enter)]), Action::CreateDirectory);
    e.ask(Prompt::Rename);
    assert_eq!(press(&mut e, &[plain('n'), special(KeyCode::Enter)]), Action::RenameEntry);
    e.ask(Prompt::Delete);
    assert_eq!(press(&mut e, &[plain('n'), special(KeyCode::Enter)]), Action::Idle);
    e.ask(Prompt::Delete);
    assert_eq!(press(&mut e, &[plain('y'), special(KeyCode::Enter)]), Action::DeleteEntry);
    assert_eq!(lines_of(&e), vec!["abc"]);
    assert_eq!(press(&mut e, &[plain('q')]), Action::Idle);
    assert_eq!(e.mode, Mode::Normal);
}

#[test]
fn browser_prompts_outside_dired_mode_do_nothing() {
    for prompt in [Prompt::CreateDirectory, Prompt::Delete, Prompt::Rename, Prompt::Touch, Prompt::TouchOpen] {
        let mut e = editor("abc");
        e.ask(prompt);
        assert_eq!(press(&mut e, &[plain('y'), special(KeyCode::Enter)]), Action::Idle);
        assert_eq!(e.prompt, None);
    }
}

#[test]
fn an_open_overlay_keeps_keys_from_the_mode() {
    let mut e = editor("abc");
    assert_eq!(e.handle_keys(plain('x'), true), Action::Idle);
    assert_eq!(e.handle_keys(plain('q'), true), Action::Idle);
    assert_eq!(lines_of(&e), vec!["abc"]);
    e.ask(Prompt::Eval);
    assert_eq!(e.handle_keys(plain('x'), true), Action::Idle);
    assert_eq!(e.input, chars("x"));
    assert_eq!(e.handle_keys(special(KeyCode::Enter), true), Action::Eval);
    assert_eq!(e.handle_keys(plain('q'), false), Action::Quit);
}

#[test]
fn mode_handlers_can_be_called_directly() {
    let mut e = editor("abc");
    assert_eq!(e.handle_normal_mode(plain('q')), Action::Quit);
    assert_eq!(e.handle_normal_mode(plain('i')), Action::Idle);
    assert_eq!(e.handle_insert_mode(plain('z')), Action::Idle);
    assert_eq!(lines_of(&e), vec!["zabc"]);
    assert_eq!(e.handle_insert_mode(special(KeyCode::Esc)), Action::Idle);
    assert_eq!(e.handle_normal_mode(plain('v')), Action::Idle);
    assert_eq!(e.handle_visual_mode(plain('x')), Action::Idle);
    assert_eq!(lines_of(&e), vec!["zbc"]);
    e.set_mode(Mode::Dired);
    assert_eq!(e.handle_dired_mode(plain('h')), Action::Browse);
    assert_eq!(e.handle_mode(plain('q')), Action::Idle);
    assert_eq!(e.mode, Mode::Normal);
    assert_eq!(e.run(bind(Op::End, Op::Backspace, Action::Save)), Action::Save);
    assert_eq!(lines_of(&e), vec!["zb"]);
}

#[test]
fn every_complete_edit_can_be_undone() {
    let mut e = editor("ab\n  cd");
    press(&mut e, &[shift('J')]);
    assert_eq!(lines_of(&e), vec!["ab cd"]);
    press(&mut e, &[plain('u')]);
    assert_eq!(lines_of(&e), vec!["ab", "  cd"]);
    press(&mut e, &[plain('y'), plain('p')]);
    assert_eq!(lines_of(&e), vec!["ab", "ab", "  cd"]);
    press(&mut e, &[plain('u')]);
    assert_eq!(lines_of(&e), vec!["ab", "  cd"]);
    press(&mut e, &[shift('P')]);
    assert_eq!(lines_of(&e), vec!["ab", "ab", "  cd"]);
    press(&mut e, &[plain('u')]);
    assert_eq!(lines_of(&e), vec!["ab", "  cd"]);
    press(&mut e, &[plain('v'), plain('l'), plain('x')]);
    assert_eq!(lines_of(&e), vec!["", "  cd"]);
    press(&mut e, &[plain('u')]);
    assert_eq!(lines_of(&e), vec!["ab", "  cd"]);
    press(&mut e, &[plain('j'), special(KeyCode::Tab)]);
    assert_eq!(lines_of(&e), vec!["ab", "cd"]);
    press(&mut e, &[plain('u')]);
    assert_eq!(lines_of(&e), vec!["ab", "  cd"]);
    assert_eq!(at(&e), (0, 0));
    press(&mut e, &[ctrl('k')]);
    assert_eq!(lines_of(&e), vec!["", "  cd"]);
    assert_eq!(e.register.text, chars("ab"));
    press(&mut e, &[plain('u')]);
    assert_eq!(lines_of(&e), vec!["ab", "  cd"]);
}
