//! Ability identifiers and the registry extension point.

use vstd::prelude::*;

verus! {

/// Identifier of an ability.
#[derive(Debug, Clone, Copy, PartialEq, Eq, Hash, Structural)]
pub struct AbilityId(pub u16);

/// An ability; triggers, modifiers and hooks attach here later.
#[derive(Debug, Clone)]
pub struct Ability {}

/// A read-only store of abilities, looked up by id.
pub trait AbilityRegistry {
    fn get(&self, id: AbilityId) -> Option<&Ability>;
}

} // verus!
