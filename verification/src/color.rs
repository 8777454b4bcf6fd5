//! Colours of a cell.
use vstd::prelude::*;

verus! {

/// A colour that a terminal can show.
///
/// The sixteen base colours are available on almost every terminal. `Rgb`
/// and `AnsiValue` need a terminal that supports more. `Reset` stands for the
/// terminal's own default colour.
#[derive(Debug, Clone, Copy, PartialEq, Eq, Hash, Structural)]
pub enum Color {
    Reset,
    Black,
    DarkGrey,
    Red,
    DarkRed,
    Green,
    DarkGreen,
    Yellow,
    DarkYellow,
    Blue,
    DarkBlue,
    Magenta,
    DarkMagenta,
    Cyan,
    DarkCyan,
    White,
    Grey,
    Rgb { r: u8, g: u8, b: u8 },
    AnsiValue(u8),
}

} // verus!
