//! One grid cell: a glyph, its colors and its semantic kind.

use vstd::prelude::*;

use crate::color::{Color, Rgb};

verus! {

/// What a cell means to the game rules.
#[derive(Clone, Copy, Debug, PartialEq, Eq, Structural)]
pub enum CellType {
    Solid,
    Fruit,
    Snake,
    Empty,
}

/// An immutable cell value: replaced wholesale on any change.
#[derive(Clone, Copy, Debug, PartialEq, Eq, Structural)]
pub struct Cell {
    pub glyph: char,
    pub bg_color: Rgb,
    pub fg_color: Rgb,
    pub cell_type: CellType,
}

/// The blank cell: a space glyph with the neutral colors.
pub open spec fn spec_empty_cell() -> Cell {
    Cell {
        glyph: ' ',
        bg_color: Color::Black.spec_rgb(),
        fg_color: Color::White.spec_rgb(),
        cell_type: CellType::Empty,
    }
}

impl Cell {
    pub fn new(glyph: char, bg_color: Rgb, fg_color: Rgb, cell_type: CellType) -> (c: Cell)
        ensures
            c == (Cell { glyph, bg_color, fg_color, cell_type }),
    {
        Cell { glyph, bg_color, fg_color, cell_type }
    }

    /// A solid cell with the given colors.
    pub fn new_typeless(glyph: char, bg_color: Rgb, fg_color: Rgb) -> (c: Cell)
        ensures
            c == (Cell { glyph, bg_color, fg_color, cell_type: CellType::Solid }),
    {
        Cell { glyph, bg_color, fg_color, cell_type: CellType::Solid }
    }

    /// A solid cell drawn with the neutral colors.
    pub fn new_colorless(glyph: char) -> (c: Cell)
        ensures
            c == (Cell {
                glyph,
                bg_color: Color::Black.spec_rgb(),
                fg_color: Color::White.spec_rgb(),
                cell_type: CellType::Solid,
            }),
    {
        Cell {
            glyph,
            bg_color: Color::Black.to_rgb(),
            fg_color: Color::White.to_rgb(),
            cell_type: CellType::Solid,
        }
    }

    /// The blank cell: empty kind, space glyph, neutral colors.
    pub fn new_empty() -> (c: Cell)
        ensures
            c == spec_empty_cell(),
    {
        Cell {
            glyph: ' ',
            bg_color: Color::Black.to_rgb(),
            fg_color: Color::White.to_rgb(),
            cell_type: CellType::Empty,
        }
    }

    pub fn cell_type(&self) -> (t: CellType)
        ensures
            t == self.cell_type,
    {
        self.cell_type
    }
}

} // verus!
