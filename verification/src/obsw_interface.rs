//! What a flight algorithm is to the software that runs it.
use vstd::prelude::*;

verus! {

/// What handling an event leads to.
#[derive(Debug)]
pub enum Reaction<EventType, ActionType> {
    /// Perform the action, and go on when it is done.
    Perform(ActionType),
    /// Have the event handled as well, after this one; do not wait for it.
    Schedule(EventType),
}

/// An algorithm that turns events into actions.
pub trait BlimpAlgorithm<EventType, ActionType>: Sized {
    /// Whether the numbers in `ev` are within what the algorithm can compute with.
    spec fn accepts(&self, ev: EventType) -> bool;

    /// Takes in `ev`, and gives what is to be done about it, in that order.
    fn handle_event(&mut self, ev: EventType) -> (reactions: Vec<Reaction<EventType, ActionType>>)
        requires
            old(self).accepts(ev),
    ;
}

} // verus!
