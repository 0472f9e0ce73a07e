//! Integer 2-D coordinates: unsigned for matrix space, signed for
//! UI-relative offsets.

use vstd::prelude::*;

verus! {

/// A position in matrix space.
#[derive(Clone, Copy, Debug, PartialEq, Eq, Structural)]
pub struct Vector {
    pub x: u16,
    pub y: u16,
}

impl Vector {
    pub fn new(x: u16, y: u16) -> (v: Vector)
        ensures
            v == (Vector { x, y }),
    {
        Vector { x, y }
    }

    pub fn zero() -> (v: Vector)
        ensures
            v == (Vector { x: 0u16, y: 0u16 }),
    {
        Vector { x: 0, y: 0 }
    }

    pub fn x(&self) -> (r: u16)
        ensures
            r == self.x,
    {
        self.x
    }

    pub fn set_x(&mut self, x: u16)
        ensures
            *final(self) == (Vector { x, y: old(self).y }),
    {
        self.x = x;
    }

    pub fn y(&self) -> (r: u16)
        ensures
            r == self.y,
    {
        self.y
    }

    pub fn set_y(&mut self, y: u16)
        ensures
            *final(self) == (Vector { x: old(self).x, y }),
    {
        self.y = y;
    }
}

/// A signed offset relative to an anchor, used by UI elements.
#[derive(Clone, Copy, Debug, PartialEq, Eq, Structural)]
pub struct Offset {
    pub x: i32,
    pub y: i32,
}

impl Offset {
    pub fn new(x: i32, y: i32) -> (v: Offset)
        ensures
            v == (Offset { x, y }),
    {
        Offset { x, y }
    }

    pub fn zero() -> (v: Offset)
        ensures
            v == (Offset { x: 0i32, y: 0i32 }),
    {
        Offset { x: 0, y: 0 }
    }
}

} // verus!
