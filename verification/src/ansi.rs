//! The terminal text a cell turns into: a cursor-move escape
//! sequence, background and foreground true-color sequences, the
//! glyph, and a foreground reset. The escape sequences themselves
//! come from the termion crate; their exact character content is
//! specified here and the calls are trusted to match it.

use vstd::prelude::*;

use crate::cell::Cell;
use crate::color::Rgb;
use crate::dec::dec_str;
use crate::vector::Vector;

verus! {

/// `ESC [ <row> ; <col> H`: move the cursor to a one-based position.
pub open spec fn goto_repr(x: u16, y: u16) -> Seq<char> {
    seq!['\u{1b}', '['] + dec_str(y as nat) + seq![';'] + dec_str(x as nat) + seq!['H']
}

/// `ESC [48;2;<r>;<g>;<b>m`: set the background to a true color.
pub open spec fn bg_repr(c: Rgb) -> Seq<char> {
    seq!['\u{1b}', '[', '4', '8', ';', '2', ';'] + dec_str(c.r as nat) + seq![';'] + dec_str(
        c.g as nat,
    ) + seq![';'] + dec_str(c.b as nat) + seq!['m']
}

/// `ESC [38;2;<r>;<g>;<b>m`: set the foreground to a true color.
pub open spec fn fg_repr(c: Rgb) -> Seq<char> {
    seq!['\u{1b}', '[', '3', '8', ';', '2', ';'] + dec_str(c.r as nat) + seq![';'] + dec_str(
        c.g as nat,
    ) + seq![';'] + dec_str(c.b as nat) + seq!['m']
}

/// `ESC [39m`: reset the foreground to its default.
pub open spec fn reset_fg_repr() -> Seq<char> {
    seq!['\u{1b}', '[', '3', '9', 'm']
}

/// The full text one cell writes: cursor move (one-based), background
/// color, foreground color, the glyph, foreground reset.
pub open spec fn cell_repr(position: Vector, cell: Cell) -> Seq<char>
    recommends
        position.x < 0xffff,
        position.y < 0xffff,
{
    goto_repr((position.x + 1) as u16, (position.y + 1) as u16) + bg_repr(cell.bg_color) + fg_repr(
        cell.fg_color,
    ) + seq![cell.glyph] + reset_fg_repr()
}

/// Relies on termion's `From<cursor::Goto> for String`: it builds
/// exactly `ESC [ <y> ; <x> H` with plain decimal numbers.
#[verifier::external_body]
fn goto_string(x: u16, y: u16) -> (s: String)
    ensures
        s@ == goto_repr(x, y),
{
    String::from(termion::cursor::Goto(x, y))
}

/// Relies on termion's `color::Rgb::bg_string`: it builds exactly
/// `ESC [48;2;<r>;<g>;<b>m` with plain decimal numbers.
#[verifier::external_body]
fn bg_string(c: &Rgb) -> (s: String)
    ensures
        s@ == bg_repr(*c),
{
    termion::color::Rgb(c.r, c.g, c.b).bg_string()
}

/// Relies on termion's `color::Rgb::fg_string`: it builds exactly
/// `ESC [38;2;<r>;<g>;<b>m` with plain decimal numbers.
#[verifier::external_body]
fn fg_string(c: &Rgb) -> (s: String)
    ensures
        s@ == fg_repr(*c),
{
    termion::color::Rgb(c.r, c.g, c.b).fg_string()
}

/// Relies on std's `String::from(char)`: the one-character string.
#[verifier::external_body]
fn char_string(c: char) -> (s: String)
    ensures
        s@ == seq![c],
{
    String::from(c)
}

impl Cell {
    /// The cell as positioned, colored terminal text.
    pub fn to_string(&self, position: &Vector) -> (s: String)
        requires
            position.x < 0xffff,
            position.y < 0xffff,
        ensures
            s@ == cell_repr(*position, *self),
    {
        let mut s = goto_string(position.x + 1, position.y + 1);
        s.append(bg_string(&self.bg_color).as_str());
        s.append(fg_string(&self.fg_color).as_str());
        s.append(char_string(self.glyph).as_str());
        s.append("\u{1b}[39m");
        proof {
            reveal_strlit("\u{1b}[39m");
            assert(s@ =~= cell_repr(*position, *self));
        }
        s
    }
}

} // verus!
