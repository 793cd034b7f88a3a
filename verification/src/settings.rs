//! Live settings, and how values read back from a script replace them.

use vstd::prelude::*;

verus! {

/// The settings that the engine and its host read.
#[derive(Clone, Copy, Debug, PartialEq, Eq, Structural)]
pub struct Settings {
    pub blink_cursor: bool,
    pub show_fringe: bool,
    pub show_line_numbers: bool,
    pub insert_line_cursor: bool,
    pub show_hl_line: bool,
    pub blink_limit: u8,
    /// Spaces for each level of indentation.
    pub indentation: usize,
    /// Whether an opening delimiter brings its closer.
    pub electric_pair_mode: bool,
    pub tree_node: char,
    pub current_tree_node: char,
    pub tree_node_separator: char,
    pub modeline_separator_right: char,
    pub modeline_separator_left: char,
}

/// What a script left behind for each setting: a new value, or nothing.
#[derive(Clone, Copy, Debug)]
pub struct SettingsUpdate {
    pub blink_cursor: Option<bool>,
    pub show_fringe: Option<bool>,
    pub show_line_numbers: Option<bool>,
    pub insert_line_cursor: Option<bool>,
    pub show_hl_line: Option<bool>,
    pub top_scroll_margin: Option<usize>,
    pub bottom_scroll_margin: Option<usize>,
    pub blink_limit: Option<u8>,
    pub indentation: Option<usize>,
    pub electric_pair_mode: Option<bool>,
    pub tree_node: Option<char>,
    pub current_tree_node: Option<char>,
    pub tree_node_separator: Option<char>,
    pub modeline_separator_right: Option<char>,
    pub modeline_separator_left: Option<char>,
}

/// The new value where there is one, the old value otherwise.
pub open spec fn pick<T>(new: Option<T>, old: T) -> T {
    match new {
        Some(v) => v,
        None => old,
    }
}

/// The new value where there is one, the old value otherwise.
pub fn choose_value<T: Copy>(new: Option<T>, old: T) -> (v: T)
    ensures
        v == pick(new, old),
{
    match new {
        Some(v) => v,
        None => old,
    }
}

impl Settings {
    /// The settings of a session without a configuration script.
    pub fn new() -> (s: Settings)
        ensures
            s == Settings::defaults(),
    {
        Settings {
            blink_cursor: true,
            show_fringe: true,
            show_line_numbers: true,
            insert_line_cursor: false,
            show_hl_line: false,
            blink_limit: 10,
            indentation: 4,
            electric_pair_mode: true,
            tree_node: '\u{25EF}',
            current_tree_node: '\u{25CF}',
            tree_node_separator: '\u{2014}',
            modeline_separator_right: '\u{E0BC}',
            modeline_separator_left: '\u{E0B2}',
        }
    }

    /// The default settings.
    pub open spec fn defaults() -> Settings {
        Settings {
            blink_cursor: true,
            show_fringe: true,
            show_line_numbers: true,
            insert_line_cursor: false,
            show_hl_line: false,
            blink_limit: 10,
            indentation: 4,
            electric_pair_mode: true,
            tree_node: '\u{25EF}',
            current_tree_node: '\u{25CF}',
            tree_node_separator: '\u{2014}',
            modeline_separator_right: '\u{E0BC}',
            modeline_separator_left: '\u{E0B2}',
        }
    }

    /// These settings after an update: each setting takes its new value
    /// where the update has one, whatever the others do.
    pub open spec fn updated(self, u: SettingsUpdate) -> Settings {
        Settings {
            blink_cursor: pick(u.blink_cursor, self.blink_cursor),
            show_fringe: pick(u.show_fringe, self.show_fringe),
            show_line_numbers: pick(u.show_line_numbers, self.show_line_numbers),
            insert_line_cursor: pick(u.insert_line_cursor, self.insert_line_cursor),
            show_hl_line: pick(u.show_hl_line, self.show_hl_line),
            blink_limit: pick(u.blink_limit, self.blink_limit),
            indentation: pick(u.indentation, self.indentation),
            electric_pair_mode: pick(u.electric_pair_mode, self.electric_pair_mode),
            tree_node: pick(u.tree_node, self.tree_node),
            current_tree_node: pick(u.current_tree_node, self.current_tree_node),
            tree_node_separator: pick(u.tree_node_separator, self.tree_node_separator),
            modeline_separator_right: pick(
                u.modeline_separator_right,
                self.modeline_separator_right,
            ),
            modeline_separator_left: pick(u.modeline_separator_left, self.modeline_separator_left),
        }
    }

    /// Applies an update; see `updated`.
    pub fn apply(&mut self, u: &SettingsUpdate)
        ensures
            *final(self) == old(self).updated(*u),
    {
        self.blink_cursor = choose_value(u.blink_cursor, self.blink_cursor);
        self.show_fringe = choose_value(u.show_fringe, self.show_fringe);
        self.show_line_numbers = choose_value(u.show_line_numbers, self.show_line_numbers);
        self.insert_line_cursor = choose_value(u.insert_line_cursor, self.insert_line_cursor);
        self.show_hl_line = choose_value(u.show_hl_line, self.show_hl_line);
        self.blink_limit = choose_value(u.blink_limit, self.blink_limit);
        self.indentation = choose_value(u.indentation, self.indentation);
        self.electric_pair_mode = choose_value(u.electric_pair_mode, self.electric_pair_mode);
        self.tree_node = choose_value(u.tree_node, self.tree_node);
        self.current_tree_node = choose_value(u.current_tree_node, self.current_tree_node);
        self.tree_node_separator = choose_value(u.tree_node_separator, self.tree_node_separator);
        self.modeline_separator_right = choose_value(
            u.modeline_separator_right,
            self.modeline_separator_right,
        );
        self.modeline_separator_left = choose_value(
            u.modeline_separator_left,
            self.modeline_separator_left,
        );
    }
}

} // verus!
