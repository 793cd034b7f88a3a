//! The key tables: what each key press is bound to in each mode.

use vstd::prelude::*;
use crate::command::Op;
use crate::keys::{Key, KeyCode, Modifiers};
use crate::session::{Mode, Prompt};

verus! {

/// What the host is asked to do after a key press.
#[derive(Clone, Copy, Debug, PartialEq, Eq, Structural)]
pub enum Action {
    /// Nothing.
    Idle,
    Quit,
    /// Write the text of `buffer_save` to the current file.
    Save,
    SaveAndQuit,
    /// Open the file that the entered line names.
    Open,
    /// Evaluate the entered line as a script.
    Eval,
    /// Run the entered line as a shell command.
    Shell,
    /// Switch to the theme that the entered line names.
    SwitchTheme,
    /// Evaluate the text of `eval_line`.
    EvalLine,
    /// Evaluate the text of `eval_region`.
    EvalRegion,
    /// Browse the directory of the current file.
    DiredJump,
    /// Put the current file's path into the minibuffer's input.
    PromptFindFile,
    /// Show the syntax highlights.
    ShowHighlights,
    /// Evaluate the text of `eval_buffer`.
    EvalBuffer,
    /// Show the syntax tree.
    DebugAst,
    /// Open the file finder.
    OpenFinder,
    /// Open the command palette.
    OpenCommands,
    /// Create the directory that the entered line names.
    CreateDirectory,
    /// Delete the entry under the browser's cursor.
    DeleteEntry,
    /// Rename the entry under the browser's cursor to the entered line.
    RenameEntry,
    /// Create the file that the entered line names.
    Touch,
    /// Create the file that the entered line names, and open it.
    TouchOpen,
    /// Hand the key to the directory browser.
    Browse,
}

/// What a key is bound to: two commands, performed in this order, and an
/// action for the host.
#[derive(Clone, Copy, Debug, PartialEq, Eq, Structural)]
pub struct Binding {
    pub first: Op,
    pub second: Op,
    pub action: Action,
}

/// The binding of `first`, then `second`, then `action`.
pub open spec fn bound(first: Op, second: Op, action: Action) -> Binding {
    Binding { first, second, action }
}

/// The binding of `first`, then `second`, then `action`.
pub fn bind(first: Op, second: Op, action: Action) -> (b: Binding)
    ensures
        b == bound(first, second, action),
{
    Binding { first, second, action }
}

/// The upper-case form of an ASCII lower-case letter; any other character
/// as it is.
pub open spec fn upper_case(c: char) -> char {
    if 'a' <= c <= 'z' {
        ((c as u8) - 32) as char
    } else {
        c
    }
}

/// The upper-case form of an ASCII lower-case letter; see `upper_case`.
pub fn to_upper_case(c: char) -> (u: char)
    ensures
        u == upper_case(c),
{
    if 'a' <= c && c <= 'z' {
        ((c as u8) - 32) as char
    } else {
        c
    }
}

/// The keys of Normal mode that are pressed with Control.
pub open spec fn normal_control_keys(c: char, chord: bool) -> Binding {
    match c {
        'x' => bound(Op::ArmChord, Op::Idle, Action::Idle),
        's' => if chord {
            bound(Op::Idle, Op::Idle, Action::Save)
        } else {
            bound(Op::Idle, Op::Idle, Action::Idle)
        },
        'f' => if chord {
            bound(Op::Ask(Prompt::FindFile), Op::Idle, Action::PromptFindFile)
        } else {
            bound(Op::ToggleFringe, Op::Idle, Action::Idle)
        },
        'r' => bound(Op::Redo, Op::Idle, Action::Idle),
        't' => bound(Op::Ask(Prompt::SwitchTheme), Op::Idle, Action::Idle),
        'j' => if chord {
            bound(Op::DropChord, Op::Idle, Action::DiredJump)
        } else {
            bound(Op::Enter, Op::Snapshot, Action::Idle)
        },
        'h' => bound(Op::Backspace, Op::Snapshot, Action::Idle),
        'l' => bound(Op::ToggleLineNumbers, Op::Idle, Action::Idle),
        'p' => bound(Op::Idle, Op::Idle, Action::ShowHighlights),
        'k' => bound(Op::KillLine, Op::Snapshot, Action::Idle),
        _ => bound(Op::Idle, Op::Idle, Action::Idle),
    }
}

/// Looks up `normal_control_keys`.
pub fn normal_control_binding(c: char, chord: bool) -> (b: Binding)
    ensures
        b == normal_control_keys(c, chord),
{
    match c {
        'x' => bind(Op::ArmChord, Op::Idle, Action::Idle),
        's' => if chord {
            bind(Op::Idle, Op::Idle, Action::Save)
        } else {
            bind(Op::Idle, Op::Idle, Action::Idle)
        },
        'f' => if chord {
            bind(Op::Ask(Prompt::FindFile), Op::Idle, Action::PromptFindFile)
        } else {
            bind(Op::ToggleFringe, Op::Idle, Action::Idle)
        },
        'r' => bind(Op::Redo, Op::Idle, Action::Idle),
        't' => bind(Op::Ask(Prompt::SwitchTheme), Op::Idle, Action::Idle),
        'j' => if chord {
            bind(Op::DropChord, Op::Idle, Action::DiredJump)
        } else {
            bind(Op::Enter, Op::Snapshot, Action::Idle)
        },
        'h' => bind(Op::Backspace, Op::Snapshot, Action::Idle),
        'l' => bind(Op::ToggleLineNumbers, Op::Idle, Action::Idle),
        'p' => bind(Op::Idle, Op::Idle, Action::ShowHighlights),
        'k' => bind(Op::KillLine, Op::Snapshot, Action::Idle),
        _ => bind(Op::Idle, Op::Idle, Action::Idle),
    }
}

/// The keys of Normal mode that are pressed with Shift.
pub open spec fn normal_shift_keys(c: char) -> Binding {
    match c {
        'N' => bound(Op::Highlight(true), Op::SearchPrevious, Action::Idle),
        'G' => bound(Op::Bottom, Op::Idle, Action::Idle),
        'O' => bound(Op::Snapshot, Op::OpenAbove, Action::Idle),
        'J' => bound(Op::Join, Op::Snapshot, Action::Idle),
        'A' => bound(Op::End, Op::Go(Mode::Insert), Action::Idle),
        'I' => bound(Op::BackToIndentation, Op::Go(Mode::Insert), Action::Idle),
        'P' => bound(Op::Paste(false), Op::Snapshot, Action::Idle),
        _ => bound(Op::Idle, Op::Idle, Action::Idle),
    }
}

/// Looks up `normal_shift_keys`.
pub fn normal_shift_binding(c: char) -> (b: Binding)
    ensures
        b == normal_shift_keys(c),
{
    match c {
        'N' => bind(Op::Highlight(true), Op::SearchPrevious, Action::Idle),
        'G' => bind(Op::Bottom, Op::Idle, Action::Idle),
        'O' => bind(Op::Snapshot, Op::OpenAbove, Action::Idle),
        'J' => bind(Op::Join, Op::Snapshot, Action::Idle),
        'A' => bind(Op::End, Op::Go(Mode::Insert), Action::Idle),
        'I' => bind(Op::BackToIndentation, Op::Go(Mode::Insert), Action::Idle),
        'P' => bind(Op::Paste(false), Op::Snapshot, Action::Idle),
        _ => bind(Op::Idle, Op::Idle, Action::Idle),
    }
}

/// The keys of Normal mode that are pressed with Alt.
pub open spec fn normal_alt_keys(c: char) -> Binding {
    match c {
        'x' => bound(Op::Idle, Op::Idle, Action::OpenCommands),
        'm' => bound(Op::BackToIndentation, Op::Idle, Action::Idle),
        '!' => bound(Op::Ask(Prompt::Shell), Op::Idle, Action::Idle),
        _ => bound(Op::Idle, Op::Idle, Action::Idle),
    }
}

/// Looks up `normal_alt_keys`.
pub fn normal_alt_binding(c: char) -> (b: Binding)
    ensures
        b == normal_alt_keys(c),
{
    match c {
        'x' => bind(Op::Idle, Op::Idle, Action::OpenCommands),
        'm' => bind(Op::BackToIndentation, Op::Idle, Action::Idle),
        '!' => bind(Op::Ask(Prompt::Shell), Op::Idle, Action::Idle),
        _ => bind(Op::Idle, Op::Idle, Action::Idle),
    }
}

/// The letters of Normal mode that are pressed alone.
pub open spec fn normal_letter_keys(c: char) -> Binding {
    match c {
        'f' => bound(Op::Idle, Op::Idle, Action::OpenFinder),
        '/' => bound(Op::Highlight(true), Op::Ask(Prompt::Search), Action::Idle),
        'n' => bound(Op::Highlight(true), Op::SearchNext, Action::Idle),
        'e' => bound(Op::Idle, Op::Idle, Action::EvalLine),
        '0' => bound(Op::Home, Op::Idle, Action::Idle),
        'x' => bound(Op::DeleteChar, Op::Snapshot, Action::Idle),
        'y' => bound(Op::YankLine, Op::Idle, Action::Idle),
        'p' => bound(Op::Paste(true), Op::Snapshot, Action::Idle),
        'o' => bound(Op::Snapshot, Op::OpenBelow, Action::Idle),
        'a' => bound(Op::Right, Op::Go(Mode::Insert), Action::Idle),
        'v' => bound(Op::Go(Mode::Visual), Op::Idle, Action::Idle),
        'g' => bound(Op::Top, Op::Idle, Action::Idle),
        'i' => bound(Op::Go(Mode::Insert), Op::Snapshot, Action::Idle),
        'd' => bound(Op::Idle, Op::Idle, Action::DiredJump),
        ':' => bound(Op::Ask(Prompt::Command), Op::Idle, Action::Idle),
        'j' => bound(Op::Down, Op::Idle, Action::Idle),
        'k' => bound(Op::Up, Op::Idle, Action::Idle),
        'h' => bound(Op::Left, Op::Idle, Action::Idle),
        'l' => bound(Op::Right, Op::Idle, Action::Idle),
        'u' => bound(Op::Undo, Op::Idle, Action::Idle),
        'q' => bound(Op::Idle, Op::Idle, Action::Quit),
        _ => bound(Op::Idle, Op::Idle, Action::Idle),
    }
}

/// Looks up `normal_letter_keys`.
pub fn normal_letter_binding(c: char) -> (b: Binding)
    ensures
        b == normal_letter_keys(c),
{
    match c {
        'f' => bind(Op::Idle, Op::Idle, Action::OpenFinder),
        '/' => bind(Op::Highlight(true), Op::Ask(Prompt::Search), Action::Idle),
        'n' => bind(Op::Highlight(true), Op::SearchNext, Action::Idle),
        'e' => bind(Op::Idle, Op::Idle, Action::EvalLine),
        '0' => bind(Op::Home, Op::Idle, Action::Idle),
        'x' => bind(Op::DeleteChar, Op::Snapshot, Action::Idle),
        'y' => bind(Op::YankLine, Op::Idle, Action::Idle),
        'p' => bind(Op::Paste(true), Op::Snapshot, Action::Idle),
        'o' => bind(Op::Snapshot, Op::OpenBelow, Action::Idle),
        'a' => bind(Op::Right, Op::Go(Mode::Insert), Action::Idle),
        'v' => bind(Op::Go(Mode::Visual), Op::Idle, Action::Idle),
        'g' => bind(Op::Top, Op::Idle, Action::Idle),
        'i' => bind(Op::Go(Mode::Insert), Op::Snapshot, Action::Idle),
        'd' => bind(Op::Idle, Op::Idle, Action::DiredJump),
        ':' => bind(Op::Ask(Prompt::Command), Op::Idle, Action::Idle),
        'j' => bind(Op::Down, Op::Idle, Action::Idle),
        'k' => bind(Op::Up, Op::Idle, Action::Idle),
        'h' => bind(Op::Left, Op::Idle, Action::Idle),
        'l' => bind(Op::Right, Op::Idle, Action::Idle),
        'u' => bind(Op::Undo, Op::Idle, Action::Idle),
        'q' => bind(Op::Idle, Op::Idle, Action::Quit),
        _ => bind(Op::Idle, Op::Idle, Action::Idle),
    }
}

/// The keys of Normal mode that are pressed alone.
pub open spec fn normal_plain_keys(code: KeyCode) -> Binding {
    match code {
        KeyCode::Char(c) => normal_letter_keys(c),
        KeyCode::Tab => bound(Op::Indent, Op::Snapshot, Action::Idle),
        KeyCode::Backspace => bound(Op::Backspace, Op::Snapshot, Action::Idle),
        KeyCode::Esc => bound(Op::Highlight(false), Op::Idle, Action::Idle),
        KeyCode::Down => bound(Op::Down, Op::Idle, Action::Idle),
        KeyCode::Up => bound(Op::Up, Op::Idle, Action::Idle),
        KeyCode::Left => bound(Op::Left, Op::Idle, Action::Idle),
        KeyCode::Right => bound(Op::Right, Op::Idle, Action::Idle),
        _ => bound(Op::Idle, Op::Idle, Action::Idle),
    }
}

/// Looks up `normal_plain_keys`.
pub fn normal_plain_binding(code: KeyCode) -> (b: Binding)
    ensures
        b == normal_plain_keys(code),
{
    match code {
        KeyCode::Char(c) => normal_letter_binding(c),
        KeyCode::Tab => bind(Op::Indent, Op::Snapshot, Action::Idle),
        KeyCode::Backspace => bind(Op::Backspace, Op::Snapshot, Action::Idle),
        KeyCode::Esc => bind(Op::Highlight(false), Op::Idle, Action::Idle),
        KeyCode::Down => bind(Op::Down, Op::Idle, Action::Idle),
        KeyCode::Up => bind(Op::Up, Op::Idle, Action::Idle),
        KeyCode::Left => bind(Op::Left, Op::Idle, Action::Idle),
        KeyCode::Right => bind(Op::Right, Op::Idle, Action::Idle),
        _ => bind(Op::Idle, Op::Idle, Action::Idle),
    }
}

/// The bindings of Normal mode. `chord` says whether the chord prefix
/// `C-x` is pending.
pub open spec fn normal_keys(key: Key, chord: bool) -> Binding {
    match (key.mods, key.code) {
        (Modifiers::Control, KeyCode::Char(c)) => normal_control_keys(c, chord),
        (Modifiers::Shift, KeyCode::Char(c)) => normal_shift_keys(c),
        (Modifiers::Alt, KeyCode::Char(c)) => normal_alt_keys(c),
        (Modifiers::AltShift, KeyCode::Char(':')) => bound(Op::Ask(Prompt::Eval), Op::Idle, Action::Idle),
        (Modifiers::Plain, code) => normal_plain_keys(code),
        _ => bound(Op::Idle, Op::Idle, Action::Idle),
    }
}

/// Looks up `normal_keys`.
pub fn normal_binding(key: Key, chord: bool) -> (b: Binding)
    ensures
        b == normal_keys(key, chord),
{
    match (key.mods, key.code) {
        (Modifiers::Control, KeyCode::Char(c)) => normal_control_binding(c, chord),
        (Modifiers::Shift, KeyCode::Char(c)) => normal_shift_binding(c),
        (Modifiers::Alt, KeyCode::Char(c)) => normal_alt_binding(c),
        (Modifiers::AltShift, KeyCode::Char(':')) => bind(Op::Ask(Prompt::Eval), Op::Idle, Action::Idle),
        (Modifiers::Plain, code) => normal_plain_binding(code),
        _ => bind(Op::Idle, Op::Idle, Action::Idle),
    }
}

/// The keys of Insert mode that are pressed with Control.
pub open spec fn insert_control_keys(c: char) -> Binding {
    match c {
        'a' => bound(Op::MwimBeginning, Op::Idle, Action::Idle),
        'e' => bound(Op::MwimEnd, Op::Idle, Action::Idle),
        'v' => bound(Op::Paste(false), Op::Idle, Action::Idle),
        'n' => bound(Op::Down, Op::Idle, Action::Idle),
        'p' => bound(Op::Up, Op::Idle, Action::Idle),
        'b' => bound(Op::Left, Op::Idle, Action::Idle),
        'f' => bound(Op::Right, Op::Idle, Action::Idle),
        's' => bound(Op::Right, Op::Ask(Prompt::InsertSearch), Action::Idle),
        _ => bound(Op::Idle, Op::Idle, Action::Idle),
    }
}

/// Looks up `insert_control_keys`.
pub fn insert_control_binding(c: char) -> (b: Binding)
    ensures
        b == insert_control_keys(c),
{
    match c {
        'a' => bind(Op::MwimBeginning, Op::Idle, Action::Idle),
        'e' => bind(Op::MwimEnd, Op::Idle, Action::Idle),
        'v' => bind(Op::Paste(false), Op::Idle, Action::Idle),
        'n' => bind(Op::Down, Op::Idle, Action::Idle),
        'p' => bind(Op::Up, Op::Idle, Action::Idle),
        'b' => bind(Op::Left, Op::Idle, Action::Idle),
        'f' => bind(Op::Right, Op::Idle, Action::Idle),
        's' => bind(Op::Right, Op::Ask(Prompt::InsertSearch), Action::Idle),
        _ => bind(Op::Idle, Op::Idle, Action::Idle),
    }
}

/// The bindings of Insert mode.
pub open spec fn insert_keys(key: Key) -> Binding {
    match (key.mods, key.code) {
        (Modifiers::Plain, KeyCode::Tab) => bound(Op::Indent, Op::Idle, Action::Idle),
        (Modifiers::Control, KeyCode::Char(c)) => insert_control_keys(c),
        (Modifiers::Plain, KeyCode::Esc) => bound(Op::Go(Mode::Normal), Op::Snapshot, Action::Idle),
        (Modifiers::Shift, KeyCode::Char(c)) => bound(Op::InsertPlain(upper_case(c)), Op::Idle, Action::Idle),
        (Modifiers::Plain, KeyCode::Char(c)) => bound(Op::Insert(c), Op::Idle, Action::Idle),
        (Modifiers::Plain, KeyCode::Backspace) => bound(Op::Backspace, Op::Idle, Action::Idle),
        (Modifiers::Plain, KeyCode::Enter) => bound(Op::Enter, Op::Idle, Action::Idle),
        _ => bound(Op::Idle, Op::Idle, Action::Idle),
    }
}

/// Looks up `insert_keys`.
pub fn insert_binding(key: Key) -> (b: Binding)
    ensures
        b == insert_keys(key),
{
    match (key.mods, key.code) {
        (Modifiers::Plain, KeyCode::Tab) => bind(Op::Indent, Op::Idle, Action::Idle),
        (Modifiers::Control, KeyCode::Char(c)) => insert_control_binding(c),
        (Modifiers::Plain, KeyCode::Esc) => bind(Op::Go(Mode::Normal), Op::Snapshot, Action::Idle),
        (Modifiers::Shift, KeyCode::Char(c)) => bind(Op::InsertPlain(to_upper_case(c)), Op::Idle, Action::Idle),
        (Modifiers::Plain, KeyCode::Char(c)) => bind(Op::Insert(c), Op::Idle, Action::Idle),
        (Modifiers::Plain, KeyCode::Backspace) => bind(Op::Backspace, Op::Idle, Action::Idle),
        (Modifiers::Plain, KeyCode::Enter) => bind(Op::Enter, Op::Idle, Action::Idle),
        _ => bind(Op::Idle, Op::Idle, Action::Idle),
    }
}

/// The letters of Visual mode.
pub open spec fn visual_letter_keys(c: char) -> Binding {
    match c {
        'v' => bound(Op::Go(Mode::Normal), Op::Idle, Action::Idle),
        'e' => bound(Op::Track, Op::Idle, Action::EvalRegion),
        'x' => bound(Op::DeleteSelection, Op::Snapshot, Action::Idle),
        'h' => bound(Op::Left, Op::Track, Action::Idle),
        'l' => bound(Op::RightWithin, Op::Track, Action::Idle),
        'j' => bound(Op::Down, Op::Track, Action::Idle),
        'k' => bound(Op::Up, Op::Track, Action::Idle),
        'y' => bound(Op::CopySelection, Op::Idle, Action::Idle),
        _ => bound(Op::Track, Op::Idle, Action::Idle),
    }
}

/// Looks up `visual_letter_keys`.
pub fn visual_letter_binding(c: char) -> (b: Binding)
    ensures
        b == visual_letter_keys(c),
{
    match c {
        'v' => bind(Op::Go(Mode::Normal), Op::Idle, Action::Idle),
        'e' => bind(Op::Track, Op::Idle, Action::EvalRegion),
        'x' => bind(Op::DeleteSelection, Op::Snapshot, Action::Idle),
        'h' => bind(Op::Left, Op::Track, Action::Idle),
        'l' => bind(Op::RightWithin, Op::Track, Action::Idle),
        'j' => bind(Op::Down, Op::Track, Action::Idle),
        'k' => bind(Op::Up, Op::Track, Action::Idle),
        'y' => bind(Op::CopySelection, Op::Idle, Action::Idle),
        _ => bind(Op::Track, Op::Idle, Action::Idle),
    }
}

/// The bindings of Visual mode. Every key lets the selection follow the
/// caret, unless it ends the selection.
pub open spec fn visual_keys(key: Key) -> Binding {
    match key.code {
        KeyCode::Char(c) => visual_letter_keys(c),
        KeyCode::Esc => bound(Op::Go(Mode::Normal), Op::Idle, Action::Idle),
        KeyCode::Left => bound(Op::Left, Op::Track, Action::Idle),
        KeyCode::Right => bound(Op::RightWithin, Op::Track, Action::Idle),
        KeyCode::Down => bound(Op::Down, Op::Track, Action::Idle),
        KeyCode::Up => bound(Op::Up, Op::Track, Action::Idle),
        _ => bound(Op::Track, Op::Idle, Action::Idle),
    }
}

/// Looks up `visual_keys`.
pub fn visual_binding(key: Key) -> (b: Binding)
    ensures
        b == visual_keys(key),
{
    match key.code {
        KeyCode::Char(c) => visual_letter_binding(c),
        KeyCode::Esc => bind(Op::Go(Mode::Normal), Op::Idle, Action::Idle),
        KeyCode::Left => bind(Op::Left, Op::Track, Action::Idle),
        KeyCode::Right => bind(Op::RightWithin, Op::Track, Action::Idle),
        KeyCode::Down => bind(Op::Down, Op::Track, Action::Idle),
        KeyCode::Up => bind(Op::Up, Op::Track, Action::Idle),
        _ => bind(Op::Track, Op::Idle, Action::Idle),
    }
}

/// The letters of Dired mode.
pub open spec fn dired_letter_keys(c: char) -> Binding {
    match c {
        'j' => bound(Op::Idle, Op::Idle, Action::Browse),
        'k' => bound(Op::Idle, Op::Idle, Action::Browse),
        'h' => bound(Op::Idle, Op::Idle, Action::Browse),
        'l' => bound(Op::Idle, Op::Idle, Action::Browse),
        'D' => bound(Op::Idle, Op::Idle, Action::Browse),
        'r' => bound(Op::Idle, Op::Idle, Action::Browse),
        't' => bound(Op::Ask(Prompt::Touch), Op::Idle, Action::Idle),
        'T' => bound(Op::Ask(Prompt::TouchOpen), Op::Idle, Action::Idle),
        'd' => bound(Op::Ask(Prompt::CreateDirectory), Op::Idle, Action::Idle),
        'q' => bound(Op::Go(Mode::Normal), Op::Idle, Action::Idle),
        _ => bound(Op::Idle, Op::Idle, Action::Idle),
    }
}

/// Looks up `dired_letter_keys`.
pub fn dired_letter_binding(c: char) -> (b: Binding)
    ensures
        b == dired_letter_keys(c),
{
    match c {
        'j' => bind(Op::Idle, Op::Idle, Action::Browse),
        'k' => bind(Op::Idle, Op::Idle, Action::Browse),
        'h' => bind(Op::Idle, Op::Idle, Action::Browse),
        'l' => bind(Op::Idle, Op::Idle, Action::Browse),
        'D' => bind(Op::Idle, Op::Idle, Action::Browse),
        'r' => bind(Op::Idle, Op::Idle, Action::Browse),
        't' => bind(Op::Ask(Prompt::Touch), Op::Idle, Action::Idle),
        'T' => bind(Op::Ask(Prompt::TouchOpen), Op::Idle, Action::Idle),
        'd' => bind(Op::Ask(Prompt::CreateDirectory), Op::Idle, Action::Idle),
        'q' => bind(Op::Go(Mode::Normal), Op::Idle, Action::Idle),
        _ => bind(Op::Idle, Op::Idle, Action::Idle),
    }
}

/// The bindings of Dired mode: the keys that concern the editor. The
/// directory browser gets the others.
pub open spec fn dired_keys(key: Key) -> Binding {
    match key.code {
        KeyCode::Char(c) => dired_letter_keys(c),
        KeyCode::Down => bound(Op::Idle, Op::Idle, Action::Browse),
        KeyCode::Up => bound(Op::Idle, Op::Idle, Action::Browse),
        KeyCode::Left => bound(Op::Idle, Op::Idle, Action::Browse),
        KeyCode::Right => bound(Op::Idle, Op::Idle, Action::Browse),
        KeyCode::Enter => bound(Op::Idle, Op::Idle, Action::Browse),
        _ => bound(Op::Idle, Op::Idle, Action::Idle),
    }
}

/// Looks up `dired_keys`.
pub fn dired_binding(key: Key) -> (b: Binding)
    ensures
        b == dired_keys(key),
{
    match key.code {
        KeyCode::Char(c) => dired_letter_binding(c),
        KeyCode::Down => bind(Op::Idle, Op::Idle, Action::Browse),
        KeyCode::Up => bind(Op::Idle, Op::Idle, Action::Browse),
        KeyCode::Left => bind(Op::Idle, Op::Idle, Action::Browse),
        KeyCode::Right => bind(Op::Idle, Op::Idle, Action::Browse),
        KeyCode::Enter => bind(Op::Idle, Op::Idle, Action::Browse),
        _ => bind(Op::Idle, Op::Idle, Action::Idle),
    }
}

} // verus!
