//! The battle turn state machine: parties, turn phases, and selected
//! actions.
//!
//! The phase cycle is StartTurn → SelectActions → ResolveActions → EndTurn
//! → StartTurn, with the turn number incremented exactly on the wraparound.
//! Finished is absorbing: advancing from it changes nothing. Nothing here
//! moves a battle into Finished — that decision belongs to the surrounding
//! game-over check.

use vstd::prelude::*;

verus! {

use crate::creature::CreatureId;
use crate::encounter::Encounter;
use crate::party::Party;

/// The phases of a battle turn.
#[derive(Debug, Clone, Copy, PartialEq, Eq, Structural)]
pub enum BattleState {
    StartTurn,
    SelectActions,
    ResolveActions,
    EndTurn,
    Finished,
}

/// The phase that follows each phase; Finished stays Finished.
pub open spec fn next_state_spec(s: BattleState) -> BattleState {
    match s {
        BattleState::StartTurn => BattleState::SelectActions,
        BattleState::SelectActions => BattleState::ResolveActions,
        BattleState::ResolveActions => BattleState::EndTurn,
        BattleState::EndTurn => BattleState::StartTurn,
        BattleState::Finished => BattleState::Finished,
    }
}

/// A single turn and the actions selected for it.
#[derive(Debug)]
pub struct Turn {
    pub turn_number: u32,
    pub actions: Vec<BattleAction>,
}

impl Turn {
    pub fn new(turn_number: u32) -> (r: Self)
        ensures
            r.turn_number == turn_number,
            r.actions@ == Seq::<BattleAction>::empty(),
    {
        Self { turn_number, actions: Vec::new() }
    }

    pub fn add_action(&mut self, action: BattleAction)
        ensures
            final(self).turn_number == old(self).turn_number,
            final(self).actions@ == old(self).actions@.push(action),
    {
        self.actions.push(action);
    }
}

/// An action a creature can take in battle.
#[derive(Debug, Clone)]
pub enum BattleAction {
    Attack { attacker_id: CreatureId, target_id: CreatureId },
    Switch { out_id: CreatureId, in_id: CreatureId },
    UseItem { user_id: CreatureId, item_id: u32 },
    Pass,
}

/// A battle between two parties, tracking the turn phase and the current
/// turn.
pub struct Battle {
    pub parties: [Party; 2],
    pub state: BattleState,
    pub current_turn: Turn,
}

impl Battle {
    /// A new battle: first turn, starting phase.
    pub fn new(party1: Party, party2: Party) -> (r: Self)
        ensures
            r.state == BattleState::StartTurn,
            r.current_turn.turn_number == 1,
            r.current_turn.actions@ == Seq::<BattleAction>::empty(),
            r.parties[0] == party1,
            r.parties[1] == party2,
    {
        Self { parties: [party1, party2], state: BattleState::StartTurn, current_turn: Turn::new(1) }
    }

    /// Advances to the next phase of the turn cycle. On the EndTurn →
    /// StartTurn wraparound — and only then — a fresh turn begins and the
    /// turn number rises by exactly one. Invoked on Finished it is a no-op.
    pub fn advance_state(&mut self)
        requires
            old(self).state is EndTurn ==> old(self).current_turn.turn_number < u32::MAX,
        ensures
            final(self).state == next_state_spec(old(self).state),
            old(self).state is EndTurn ==> final(self).current_turn.turn_number
                == old(self).current_turn.turn_number + 1
                && final(self).current_turn.actions@ == Seq::<BattleAction>::empty(),
            !(old(self).state is EndTurn) ==> final(self).current_turn.turn_number
                == old(self).current_turn.turn_number
                && final(self).current_turn.actions@ == old(self).current_turn.actions@,
            final(self).parties == old(self).parties,
    {
        self.state = match self.state {
            BattleState::StartTurn => BattleState::SelectActions,
            BattleState::SelectActions => BattleState::ResolveActions,
            BattleState::ResolveActions => BattleState::EndTurn,
            BattleState::EndTurn => {
                self.current_turn = Turn::new(self.current_turn.turn_number + 1);
                BattleState::StartTurn
            },
            BattleState::Finished => BattleState::Finished,
        };
    }
}

impl Encounter for Battle {
    open spec fn turn_ready(&self) -> bool {
        self.state is EndTurn ==> self.current_turn.turn_number < u32::MAX
    }

    fn process_turn(&mut self)
        ensures
            old(self).state is Finished ==> final(self).state == old(self).state
                && final(self).current_turn.turn_number == old(self).current_turn.turn_number,
            !(old(self).state is Finished) ==> final(self).state == next_state_spec(
                old(self).state,
            ),
            final(self).parties == old(self).parties,
    {
        if self.state == BattleState::Finished {
            return ;
        }
        self.advance_state();
    }

    fn is_over(&self) -> (r: bool)
        ensures
            r <==> self.state is Finished,
    {
        self.state == BattleState::Finished
    }
}

} // verus!
