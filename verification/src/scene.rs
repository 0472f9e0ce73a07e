//! What one scene update hands back: the raised event and the
//! gameplay context threaded through the tick.

use vstd::prelude::*;

use crate::events::Event;
use crate::gameplay_context::GameplayContext;

verus! {

#[derive(Clone, Copy, Debug, PartialEq, Eq, Structural)]
pub struct UpdateResult {
    pub event: Event,
    pub gameplay_context: GameplayContext,
}

impl UpdateResult {
    pub fn new(event: Event, gameplay_context: GameplayContext) -> (r: UpdateResult)
        ensures
            r == (UpdateResult { event, gameplay_context }),
    {
        UpdateResult { event, gameplay_context }
    }

    /// A result that raises no event.
    pub fn none(gameplay_context: GameplayContext) -> (r: UpdateResult)
        ensures
            r == (UpdateResult { event: Event::Nothing, gameplay_context }),
    {
        UpdateResult { event: Event::Nothing, gameplay_context }
    }

    pub fn event(&self) -> (e: Event)
        ensures
            e == self.event,
    {
        self.event
    }

    pub fn gameplay_context(&self) -> (c: GameplayContext)
        ensures
            c == self.gameplay_context,
    {
        self.gameplay_context
    }
}

} // verus!
