//! Colors and the style of a cell.

use vstd::prelude::*;

verus! {

/// Colors supported by the editor. `Reset` stands for the terminal's default.
#[derive(Debug, Clone, Copy, PartialEq, Eq, Structural)]
pub enum Color {
    Reset,
    Black,
    Red,
    Green,
    Yellow,
    Blue,
    Magenta,
    Cyan,
    Gray,
    DarkGray,
    LightRed,
    LightGreen,
    LightYellow,
    LightBlue,
    LightMagenta,
    LightCyan,
    White,
    Rgb(u8, u8, u8),
    AnsiValue(u8),
}

/// Style encapsulates the foreground and background color of a cell.
#[derive(Debug, Clone, Copy, PartialEq, Eq, Structural)]
pub struct Style {
    pub foreground: Color,
    pub background: Color,
}

impl Style {
    /// The style of a blank cell: both colors left to the terminal.
    pub open spec fn plain() -> Style {
        Style { foreground: Color::Reset, background: Color::Reset }
    }

    pub fn new(foreground: Color, background: Color) -> (style: Self)
        ensures
            style == (Style { foreground, background }),
    {
        Self { foreground, background }
    }

    /// Returns the foreground color.
    pub fn foreground(&self) -> (color: Color)
        ensures
            color == self.foreground,
    {
        self.foreground
    }

    /// Returns the background color.
    pub fn background(&self) -> (color: Color)
        ensures
            color == self.background,
    {
        self.background
    }
}

impl Default for Style {
    fn default() -> (style: Self)
        ensures
            style == Style::plain(),
    {
        Self { foreground: Color::Reset, background: Color::Reset }
    }
}

} // verus!
