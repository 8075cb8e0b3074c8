//! Item identifiers and the registry extension point.

use vstd::prelude::*;

verus! {

/// Identifier of an item.
#[derive(Debug, Clone, Copy, PartialEq, Eq, Hash, Structural)]
pub struct ItemId(pub u16);

/// An item; engine-level behavior flags and data attach here later.
#[derive(Debug, Clone)]
pub struct Item {}

/// A read-only store of items, looked up by id.
pub trait ItemRegistry {
    fn get(&self, id: ItemId) -> Option<&Item>;
}

} // verus!
