//! The game's high-level state machine: which screen is active and
//! how events move between screens.

use vstd::prelude::*;

verus! {

#[derive(Clone, Copy, Debug, PartialEq, Eq, Structural)]
pub enum State {
    MainMenu,
    Starting,
    Gameplay,
    Paused,
    GameOver,
    Exit,
    Invalid,
}

#[derive(Clone, Copy, Debug, PartialEq, Eq, Structural)]
pub enum Event {
    Start,
    Pause,
    Resume,
    End,
    GoToMenu,
    Exit,
    Nothing,
}

/// The transition table: exit is reachable from everywhere, the
/// other events only from the screens that raise them; anything else
/// is invalid.
pub open spec fn spec_transition(state: State, event: Event) -> State {
    match (state, event) {
        (State::MainMenu, Event::Start) => State::Starting,
        (State::Gameplay, Event::Pause) => State::Paused,
        (State::Paused, Event::Resume) => State::Gameplay,
        (State::Gameplay, Event::End) => State::GameOver,
        (State::Paused, Event::End) => State::GameOver,
        (_, Event::Exit) => State::Exit,
        (State::GameOver, Event::GoToMenu) => State::MainMenu,
        (State::Starting, Event::Nothing) => State::Gameplay,
        _ => State::Invalid,
    }
}

impl State {
    pub fn transition(self, event: Event) -> (next: State)
        ensures
            next == spec_transition(self, event),
    {
        match (self, event) {
            (State::MainMenu, Event::Start) => State::Starting,
            (State::Gameplay, Event::Pause) => State::Paused,
            (State::Paused, Event::Resume) => State::Gameplay,
            (State::Gameplay, Event::End) => State::GameOver,
            (State::Paused, Event::End) => State::GameOver,
            (_, Event::Exit) => State::Exit,
            (State::GameOver, Event::GoToMenu) => State::MainMenu,
            (State::Starting, Event::Nothing) => State::Gameplay,
            _ => State::Invalid,
        }
    }
}

} // verus!
