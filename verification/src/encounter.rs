//! A generic interface for any type of in-game encounter.

use vstd::prelude::*;

verus! {

/// Something that can be driven turn by turn until it is over.
pub trait Encounter {
    /// Whether a turn can be processed from the current state.
    spec fn turn_ready(&self) -> bool;

    /// Processes a single turn or tick of the encounter.
    fn process_turn(&mut self)
        requires
            old(self).turn_ready(),
    ;

    /// Whether the encounter is over.
    fn is_over(&self) -> bool;
}

} // verus!
