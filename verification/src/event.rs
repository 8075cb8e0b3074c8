//! Battle events: value types referencing creatures by id.

use vstd::prelude::*;

verus! {

use crate::creature::CreatureId;

/// A pending battle effect or report. Events hold ids, never the creatures
/// themselves.
#[derive(Debug, Clone)]
pub enum BattleEvent {
    Damage { source: CreatureId, target: CreatureId, amount: u16 },
    Heal { source: CreatureId, target: CreatureId, amount: u16 },
    Fainted { creature: CreatureId },
    Miss { source: CreatureId, target: CreatureId },
    Custom { description: String },
}

} // verus!
