//! The game events a scene update can raise; the scene manager turns
//! them into scene transitions.

use vstd::prelude::*;

verus! {

#[derive(Clone, Copy, Debug, PartialEq, Eq, Structural)]
pub enum Event {
    Start,
    Pause,
    Resume,
    Restart,
    End,
    GoToMenu,
    Exit,
    Nothing,
}

} // verus!
