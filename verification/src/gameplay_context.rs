//! The context carried across scene transitions: the score and the
//! flag that asks the gameplay scene to build a fresh snake and
//! fruit on its next update.

use vstd::prelude::*;

verus! {

#[derive(Clone, Copy, Debug, PartialEq, Eq, Structural)]
pub struct GameplayContext {
    pub score: u32,
    pub start_new_game: bool,
}

impl GameplayContext {
    /// A fresh context: zero score, new game pending.
    pub fn new() -> (c: GameplayContext)
        ensures
            c == (GameplayContext { score: 0u32, start_new_game: true }),
    {
        GameplayContext { score: 0, start_new_game: true }
    }

    /// The same context with the score one higher.
    pub fn new_incremented(gameplay_context: GameplayContext) -> (c: GameplayContext)
        requires
            gameplay_context.score < u32::MAX,
        ensures
            c == (GameplayContext {
                score: (gameplay_context.score + 1) as u32,
                start_new_game: gameplay_context.start_new_game,
            }),
    {
        GameplayContext {
            score: gameplay_context.score + 1,
            start_new_game: gameplay_context.start_new_game,
        }
    }

    /// The same context with the new-game flag consumed.
    pub fn new_game_started(gameplay_context: GameplayContext) -> (c: GameplayContext)
        ensures
            c == (GameplayContext { score: gameplay_context.score, start_new_game: false }),
    {
        GameplayContext { score: gameplay_context.score, start_new_game: false }
    }

    pub fn score(&self) -> (s: u32)
        ensures
            s == self.score,
    {
        self.score
    }

    pub fn start_new_game(&self) -> (b: bool)
        ensures
            b == self.start_new_game,
    {
        self.start_new_game
    }

    /// Back to zero score with a new game pending.
    pub fn reset(&mut self)
        ensures
            *final(self) == (GameplayContext { score: 0u32, start_new_game: true }),
    {
        self.score = 0;
        self.start_new_game = true;
    }
}

} // verus!
