//! Colours: their notation `#rrggbb`, the themes, and the colour of the
//! caret.

use vstd::prelude::*;
use crate::buffer::Buffer;
use crate::session::Mode;

verus! {

/// A colour by its red, green and blue parts.
#[derive(Clone, Copy, Debug, PartialEq, Eq, Structural)]
pub struct Rgb {
    pub r: u8,
    pub g: u8,
    pub b: u8,
}

/// Why a text is no colour.
#[derive(Clone, Copy, Debug, PartialEq, Eq, Structural)]
pub enum ColorError {
    /// The text is not `#` followed by three two-character numbers in base
    /// sixteen.
    InvalidHexFormat,
}

/// The colours of a theme.
#[derive(Clone, Copy, Debug, PartialEq, Eq, Structural)]
pub struct Theme {
    pub background_color: Rgb,
    pub text_color: Rgb,
    pub normal_cursor_color: Rgb,
    pub insert_cursor_color: Rgb,
    pub fringe_color: Rgb,
    pub line_numbers_color: Rgb,
    pub current_line_number_color: Rgb,
    pub modeline_color: Rgb,
    pub modeline_lighter_color: Rgb,
    pub minibuffer_color: Rgb,
    pub dired_mode_color: Rgb,
    pub dired_timestamp_color: Rgb,
    pub dired_path_color: Rgb,
    pub dired_size_color: Rgb,
    pub dired_dir_color: Rgb,
    pub comment_color: Rgb,
    pub warning_color: Rgb,
    pub error_color: Rgb,
    pub ok_color: Rgb,
    pub search_bg_color: Rgb,
    pub visual_mode_color: Rgb,
    pub selection_color: Rgb,
    pub hl_line_color: Rgb,
    pub use_color: Rgb,
    pub string_color: Rgb,
}

/// Whether `c` is a digit of base sixteen.
pub open spec fn is_hex_digit(c: char) -> bool {
    ('0' <= c <= '9') || ('a' <= c <= 'f') || ('A' <= c <= 'F')
}

/// The value of a digit of base sixteen.
pub open spec fn hex_value(c: char) -> int {
    if '0' <= c <= '9' {
        c as int - '0' as int
    } else if 'a' <= c <= 'f' {
        c as int - 'a' as int + 10
    } else {
        c as int - 'A' as int + 10
    }
}

/// Whether two characters denote a number in base sixteen: two digits, or
/// a plus sign and one digit.
pub open spec fn is_hex_pair(a: char, b: char) -> bool {
    (a == '+' || is_hex_digit(a)) && is_hex_digit(b)
}

/// The number that two characters denote in base sixteen.
pub open spec fn hex_pair_value(a: char, b: char) -> int {
    if a == '+' {
        hex_value(b)
    } else {
        hex_value(a) * 16 + hex_value(b)
    }
}

/// Whether `s` denotes a colour: `#` and three numbers of two characters.
pub open spec fn is_color(s: Seq<char>) -> bool {
    &&& s.len() == 7
    &&& s[0] == '#'
    &&& is_hex_pair(s[1], s[2])
    &&& is_hex_pair(s[3], s[4])
    &&& is_hex_pair(s[5], s[6])
}

/// The colour that `s` denotes.
pub open spec fn color_of(s: Seq<char>) -> Rgb {
    Rgb {
        r: hex_pair_value(s[1], s[2]) as u8,
        g: hex_pair_value(s[3], s[4]) as u8,
        b: hex_pair_value(s[5], s[6]) as u8,
    }
}

/// A colour from its three parts, each given in base sixteen.
pub open spec fn rgb(value: int) -> Rgb {
    Rgb {
        r: (value / 0x10000 % 0x100) as u8,
        g: (value / 0x100 % 0x100) as u8,
        b: (value % 0x100) as u8,
    }
}

/// The value of a digit of base sixteen, if `c` is one.
pub fn hex_digit(c: char) -> (v: Option<u8>)
    ensures
        v is Some <==> is_hex_digit(c),
        v is Some ==> v->0 == hex_value(c) && v->0 < 16,
{
    if '0' <= c && c <= '9' {
        Some(c as u8 - 48)
    } else if 'a' <= c && c <= 'f' {
        Some(c as u8 - 97 + 10)
    } else if 'A' <= c && c <= 'F' {
        Some(c as u8 - 65 + 10)
    } else {
        None
    }
}

/// The number that two characters denote in base sixteen, if they denote
/// one.
pub fn hex_pair(a: char, b: char) -> (v: Option<u8>)
    ensures
        v is Some <==> is_hex_pair(a, b),
        v is Some ==> v->0 == hex_pair_value(a, b),
{
    match hex_digit(b) {
        Some(low) => {
            if a == '+' {
                Some(low)
            } else {
                match hex_digit(a) {
                    Some(high) => Some(high * 16 + low),
                    None => None,
                }
            }
        },
        None => None,
    }
}

/// Reads a colour in the notation `#rrggbb`.
pub fn hex_to_rgb(hex: &Vec<char>) -> (color: Result<Rgb, ColorError>)
    ensures
        is_color(hex@) ==> color == Ok::<Rgb, ColorError>(color_of(hex@)),
        !is_color(hex@) ==> color == Err::<Rgb, ColorError>(ColorError::InvalidHexFormat),
{
    if hex.len() != 7 || hex[0] != '#' {
        return Err(ColorError::InvalidHexFormat);
    }
    match (hex_pair(hex[1], hex[2]), hex_pair(hex[3], hex[4]), hex_pair(hex[5], hex[6])) {
        (Some(r), Some(g), Some(b)) => Ok(Rgb { r, g, b }),
        _ => Err(ColorError::InvalidHexFormat),
    }
}

impl Theme {
    /// The theme that sixteen terminal colours give: each colour of the
    /// theme is one of them, by its index.
    pub open spec fn of_palette(colors: Seq<Rgb>) -> Theme {
        Theme {
            background_color: colors[0],
            text_color: colors[7],
            normal_cursor_color: colors[12],
            insert_cursor_color: colors[13],
            fringe_color: colors[4],
            line_numbers_color: colors[8],
            current_line_number_color: colors[5],
            modeline_color: colors[6],
            modeline_lighter_color: colors[8],
            minibuffer_color: colors[0],
            dired_mode_color: colors[12],
            dired_timestamp_color: colors[11],
            dired_path_color: colors[12],
            dired_size_color: colors[14],
            dired_dir_color: colors[12],
            comment_color: colors[8],
            warning_color: colors[11],
            error_color: colors[9],
            ok_color: colors[2],
            search_bg_color: colors[8],
            visual_mode_color: colors[5],
            selection_color: colors[5],
            hl_line_color: colors[8],
            use_color: colors[12],
            string_color: colors[10],
        }
    }

    /// The theme of a session without a palette.
    pub open spec fn plain() -> Theme {
        Theme {
            background_color: rgb(0x090909),
            text_color: rgb(0x9995BF),
            normal_cursor_color: rgb(0x658B5F),
            insert_cursor_color: rgb(0x514B8E),
            fringe_color: rgb(0x090909),
            line_numbers_color: rgb(0x171717),
            current_line_number_color: rgb(0xC0ACD1),
            modeline_color: rgb(0x060606),
            modeline_lighter_color: rgb(0x171717),
            minibuffer_color: rgb(0x070707),
            dired_mode_color: rgb(0x565663),
            dired_timestamp_color: rgb(0x514B8E),
            dired_path_color: rgb(0x658B5F),
            dired_size_color: rgb(0x48534A),
            dired_dir_color: rgb(0x514B8E),
            comment_color: rgb(0x867892),
            warning_color: rgb(0x565663),
            error_color: rgb(0x444E46),
            ok_color: rgb(0x4C6750),
            search_bg_color: rgb(0x3B5238),
            visual_mode_color: rgb(0x3B5238),
            selection_color: rgb(0x262626),
            hl_line_color: rgb(0x070707),
            use_color: rgb(0x514B8E),
            string_color: rgb(0x658B5F),
        }
    }

    /// The theme of a palette, or the plain theme for an empty palette.
    pub open spec fn of_wal(colors: Seq<Rgb>) -> Theme {
        if colors.len() == 0 {
            Theme::plain()
        } else {
            Theme::of_palette(colors)
        }
    }

    /// The colour of the caret: the text colour over a character other
    /// than a space in Normal mode, unless the minibuffer or the finder is
    /// open; else the colour of the mode.
    pub open spec fn caret_color(
        self,
        lines: Seq<Seq<char>>,
        col: int,
        row: int,
        mode: Mode,
        minibuffer_active: bool,
        finder_active: bool,
    ) -> Rgb {
        let over_text = mode == Mode::Normal && 0 <= row < lines.len() && 0 <= col
            < lines[row].len() && lines[row][col] != ' ';
        if over_text && !minibuffer_active && !finder_active {
            self.text_color
        } else if mode == Mode::Insert {
            self.insert_cursor_color
        } else {
            self.normal_cursor_color
        }
    }

    /// The theme of a palette; see `of_palette`.
    pub fn from_wal_colors(colors: &Vec<Rgb>) -> (t: Theme)
        requires
            colors.len() >= 15,
        ensures
            t == Theme::of_palette(colors@),
    {
        Theme {
            background_color: colors[0],
            text_color: colors[7],
            normal_cursor_color: colors[12],
            insert_cursor_color: colors[13],
            fringe_color: colors[4],
            line_numbers_color: colors[8],
            current_line_number_color: colors[5],
            modeline_color: colors[6],
            modeline_lighter_color: colors[8],
            minibuffer_color: colors[0],
            dired_mode_color: colors[12],
            dired_timestamp_color: colors[11],
            dired_path_color: colors[12],
            dired_size_color: colors[14],
            dired_dir_color: colors[12],
            comment_color: colors[8],
            warning_color: colors[11],
            error_color: colors[9],
            ok_color: colors[2],
            search_bg_color: colors[8],
            visual_mode_color: colors[5],
            selection_color: colors[5],
            hl_line_color: colors[8],
            use_color: colors[12],
            string_color: colors[10],
        }
    }

    /// The plain theme; see `plain`.
    pub fn fallback() -> (t: Theme)
        ensures
            t == Theme::plain(),
    {
        Theme {
            background_color: Rgb { r: 0x09, g: 0x09, b: 0x09 },
            text_color: Rgb { r: 0x99, g: 0x95, b: 0xBF },
            normal_cursor_color: Rgb { r: 0x65, g: 0x8B, b: 0x5F },
            insert_cursor_color: Rgb { r: 0x51, g: 0x4B, b: 0x8E },
            fringe_color: Rgb { r: 0x09, g: 0x09, b: 0x09 },
            line_numbers_color: Rgb { r: 0x17, g: 0x17, b: 0x17 },
            current_line_number_color: Rgb { r: 0xC0, g: 0xAC, b: 0xD1 },
            modeline_color: Rgb { r: 0x06, g: 0x06, b: 0x06 },
            modeline_lighter_color: Rgb { r: 0x17, g: 0x17, b: 0x17 },
            minibuffer_color: Rgb { r: 0x07, g: 0x07, b: 0x07 },
            dired_mode_color: Rgb { r: 0x56, g: 0x56, b: 0x63 },
            dired_timestamp_color: Rgb { r: 0x51, g: 0x4B, b: 0x8E },
            dired_path_color: Rgb { r: 0x65, g: 0x8B, b: 0x5F },
            dired_size_color: Rgb { r: 0x48, g: 0x53, b: 0x4A },
            dired_dir_color: Rgb { r: 0x51, g: 0x4B, b: 0x8E },
            comment_color: Rgb { r: 0x86, g: 0x78, b: 0x92 },
            warning_color: Rgb { r: 0x56, g: 0x56, b: 0x63 },
            error_color: Rgb { r: 0x44, g: 0x4E, b: 0x46 },
            ok_color: Rgb { r: 0x4C, g: 0x67, b: 0x50 },
            search_bg_color: Rgb { r: 0x3B, g: 0x52, b: 0x38 },
            visual_mode_color: Rgb { r: 0x3B, g: 0x52, b: 0x38 },
            selection_color: Rgb { r: 0x26, g: 0x26, b: 0x26 },
            hl_line_color: Rgb { r: 0x07, g: 0x07, b: 0x07 },
            use_color: Rgb { r: 0x51, g: 0x4B, b: 0x8E },
            string_color: Rgb { r: 0x65, g: 0x8B, b: 0x5F },
        }
    }

    /// The theme of the terminal's palette, or the plain theme when the
    /// palette is empty; see `of_wal`.
    pub fn wal(colors: &Vec<Rgb>) -> (t: Theme)
        requires
            colors.len() == 0 || colors.len() >= 15,
        ensures
            t == Theme::of_wal(colors@),
    {
        if colors.len() == 0 {
            Theme::fallback()
        } else {
            Theme::from_wal_colors(colors)
        }
    }

    /// The colour of the caret; see `caret_color`.
    pub fn apply_cursor_color(
        &self,
        buffer: &Buffer,
        mode: Mode,
        minibuffer_active: bool,
        finder_active: bool,
    ) -> (color: Rgb)
        ensures
            color == self.caret_color(
                buffer@.lines,
                buffer@.col,
                buffer@.row,
                mode,
                minibuffer_active,
                finder_active,
            ),
    {
        let row = buffer.cursor.row;
        let col = buffer.cursor.col;
        let normal = match mode {
            Mode::Normal => true,
            _ => false,
        };
        let over_text = normal && row < buffer.lines.len() && col < buffer.lines[row].len()
            && buffer.lines[row][col] != ' ';
        if over_text && !minibuffer_active && !finder_active {
            self.text_color
        } else {
            match mode {
                Mode::Insert => self.insert_cursor_color,
                _ => self.normal_cursor_color,
            }
        }
    }
}

} // verus!
