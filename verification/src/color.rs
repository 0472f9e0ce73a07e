//! Colors: a true-color triple and the named palette.

use vstd::prelude::*;

verus! {

/// A true-color value: red, green and blue components.
#[derive(Clone, Copy, Debug, PartialEq, Eq, Structural)]
pub struct Rgb {
    pub r: u8,
    pub g: u8,
    pub b: u8,
}

impl Rgb {
    pub fn new(r: u8, g: u8, b: u8) -> (c: Rgb)
        ensures
            c == (Rgb { r, g, b }),
    {
        Rgb { r, g, b }
    }
}

/// The named palette the game draws with.
#[derive(Clone, Copy, Debug, PartialEq, Eq, Structural)]
pub enum Color {
    Black,
    Red,
    Green,
    Yellow,
    Blue,
    Magenta,
    Cyan,
    White,
    LightBlack,
    LightRed,
    LightGreen,
    LightYellow,
    LightBlue,
    LightMagenta,
    LightCyan,
    LightWhite,
}

impl Color {
    /// The true-color value of each palette entry.
    pub open spec fn spec_rgb(self) -> Rgb {
        match self {
            Color::Black => Rgb { r: 0, g: 0, b: 0 },
            Color::Red => Rgb { r: 255, g: 0, b: 0 },
            Color::Green => Rgb { r: 0, g: 255, b: 0 },
            Color::Yellow => Rgb { r: 255, g: 255, b: 0 },
            Color::Blue => Rgb { r: 0, g: 0, b: 255 },
            Color::Magenta => Rgb { r: 255, g: 0, b: 255 },
            Color::Cyan => Rgb { r: 0, g: 255, b: 255 },
            Color::White => Rgb { r: 255, g: 255, b: 255 },
            Color::LightBlack => Rgb { r: 128, g: 128, b: 128 },
            Color::LightRed => Rgb { r: 255, g: 128, b: 128 },
            Color::LightGreen => Rgb { r: 128, g: 255, b: 128 },
            Color::LightYellow => Rgb { r: 255, g: 255, b: 128 },
            Color::LightBlue => Rgb { r: 128, g: 128, b: 255 },
            Color::LightMagenta => Rgb { r: 255, g: 128, b: 255 },
            Color::LightCyan => Rgb { r: 128, g: 255, b: 255 },
            Color::LightWhite => Rgb { r: 255, g: 255, b: 255 },
        }
    }

    pub fn to_rgb(&self) -> (c: Rgb)
        ensures
            c == self.spec_rgb(),
    {
        match self {
            Color::Black => Rgb { r: 0, g: 0, b: 0 },
            Color::Red => Rgb { r: 255, g: 0, b: 0 },
            Color::Green => Rgb { r: 0, g: 255, b: 0 },
            Color::Yellow => Rgb { r: 255, g: 255, b: 0 },
            Color::Blue => Rgb { r: 0, g: 0, b: 255 },
            Color::Magenta => Rgb { r: 255, g: 0, b: 255 },
            Color::Cyan => Rgb { r: 0, g: 255, b: 255 },
            Color::White => Rgb { r: 255, g: 255, b: 255 },
            Color::LightBlack => Rgb { r: 128, g: 128, b: 128 },
            Color::LightRed => Rgb { r: 255, g: 128, b: 128 },
            Color::LightGreen => Rgb { r: 128, g: 255, b: 128 },
            Color::LightYellow => Rgb { r: 255, g: 255, b: 128 },
            Color::LightBlue => Rgb { r: 128, g: 128, b: 255 },
            Color::LightMagenta => Rgb { r: 255, g: 128, b: 255 },
            Color::LightCyan => Rgb { r: 128, g: 255, b: 255 },
            Color::LightWhite => Rgb { r: 255, g: 255, b: 255 },
        }
    }
}

} // verus!
