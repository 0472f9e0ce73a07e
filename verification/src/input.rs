//! The key presses the game reacts to. The terminal adapter outside
//! the library translates raw input into these; anything it cannot
//! parse arrives as `Other` and is ignored by every consumer.

use vstd::prelude::*;

verus! {

#[derive(Clone, Copy, Debug, PartialEq, Eq, Structural)]
pub enum Key {
    Up,
    Down,
    Left,
    Right,
    Esc,
    Enter,
    Other,
}

} // verus!
