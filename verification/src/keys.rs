//! Key events as plain values, and the state of pending key chords.

use vstd::prelude::*;

verus! {

/// Which key was pressed.
#[derive(Clone, Copy, Debug, PartialEq, Eq, Structural)]
pub enum KeyCode {
    Char(char),
    Backspace,
    Enter,
    Esc,
    Tab,
    Up,
    Down,
    Left,
    Right,
    /// Any key the engine gives no meaning to.
    Other,
}

/// The exact set of modifiers held with a key.
#[derive(Clone, Copy, Debug, PartialEq, Eq, Structural)]
pub enum Modifiers {
    Plain,
    Control,
    Shift,
    Alt,
    AltShift,
    /// Any other combination.
    Other,
}

/// One key press.
#[derive(Clone, Copy, Debug, PartialEq, Eq, Structural)]
pub struct Key {
    pub code: KeyCode,
    pub mods: Modifiers,
}

/// Tracks whether the chord prefix `C-x` is pending.
#[derive(Clone, Copy, Debug, PartialEq, Eq, Structural)]
pub struct Keychords {
    pub ctrl_x_pressed: bool,
}

impl Keychords {
    /// No chord is pending at first.
    pub fn new() -> (k: Keychords)
        ensures
            !k.ctrl_x_pressed,
    {
        Keychords { ctrl_x_pressed: false }
    }

    /// Forgets a pending chord prefix.
    pub fn reset(&mut self)
        ensures
            !final(self).ctrl_x_pressed,
    {
        self.ctrl_x_pressed = false;
    }
}

} // verus!
