//! The two-creature battle engine: actions become queued events, and the
//! queue is drained to a fixed point.
//!
//! Draining handles events strictly in FIFO order. A damage event may
//! enqueue a fainted event in the same pass; fainted, miss and custom
//! events are not handled here but reported back to the caller. Events
//! whose target id resolves to neither creature are silently dropped.

use vstd::prelude::*;

verus! {

use crate::creature::{Creature, CreatureId};
use crate::event::BattleEvent;
use crate::event_queue::EventQueue;

/// An action a caller may submit for a turn.
#[derive(Debug, Clone)]
pub enum TurnAction {
    Attack { target: CreatureId, power: u16 },
    Heal { target: CreatureId, amount: u16 },
    Pass,
}

/// The creature after taking `amount` damage, hit points clamped at zero.
pub open spec fn damaged(c: Creature, amount: u16) -> Creature {
    Creature {
        current_hp: if amount >= c.current_hp {
            0u16
        } else {
            (c.current_hp - amount) as u16
        },
        ..c
    }
}

/// The creature after healing `amount`, hit points clamped at its maximum.
pub open spec fn healed(c: Creature, amount: u16) -> Creature {
    Creature {
        current_hp: if c.current_hp + amount > c.individual_stats.max_hp.spec_get() {
            c.individual_stats.max_hp.spec_get()
        } else {
            (c.current_hp + amount) as u16
        },
        ..c
    }
}

/// How many damage events a queue holds; each may enqueue one fainted
/// event, so this bounds the extra work a drain can create.
pub open spec fn damage_count(q: Seq<BattleEvent>) -> nat
    decreases q.len(),
{
    if q.len() == 0 {
        0
    } else {
        (if q[0] is Damage {
            1nat
        } else {
            0nat
        }) + damage_count(q.drop_first())
    }
}

/// Termination measure of a drain: pending events plus pending damage
/// events, since only the latter can enqueue further work.
pub open spec fn process_measure(q: Seq<BattleEvent>) -> nat {
    q.len() + damage_count(q)
}

/// Appending one event raises the damage count only if it is a damage
/// event.
proof fn lemma_damage_count_push(q: Seq<BattleEvent>, e: BattleEvent)
    ensures
        damage_count(q.push(e)) == damage_count(q) + (if e is Damage {
            1nat
        } else {
            0nat
        }),
    decreases q.len(),
{
    if q.len() == 0 {
        assert(q.push(e).drop_first() =~= q);
    } else {
        assert(q.push(e).drop_first() =~= q.drop_first().push(e));
        lemma_damage_count_push(q.drop_first(), e);
    }
}

/// The result of draining the queue to a fixed point: the two creatures
/// after every event has been applied, and the events reported to the
/// surrounding game layer, in handling order.
pub open spec fn process_spec(
    c1: Creature,
    c2: Creature,
    q: Seq<BattleEvent>,
    reported: Seq<BattleEvent>,
) -> (Creature, Creature, Seq<BattleEvent>)
    decreases process_measure(q),
    via process_spec_decreases
{
    if q.len() == 0 {
        (c1, c2, reported)
    } else {
        let rest = q.drop_first();
        match q[0] {
            BattleEvent::Damage { source, target, amount } => {
                if c1.id == target {
                    let c1p = damaged(c1, amount);
                    if c1p.current_hp == 0 {
                        process_spec(
                            c1p,
                            c2,
                            rest.push(BattleEvent::Fainted { creature: target }),
                            reported,
                        )
                    } else {
                        process_spec(c1p, c2, rest, reported)
                    }
                } else if c2.id == target {
                    let c2p = damaged(c2, amount);
                    if c2p.current_hp == 0 {
                        process_spec(
                            c1,
                            c2p,
                            rest.push(BattleEvent::Fainted { creature: target }),
                            reported,
                        )
                    } else {
                        process_spec(c1, c2p, rest, reported)
                    }
                } else {
                    process_spec(c1, c2, rest, reported)
                }
            },
            BattleEvent::Heal { source, target, amount } => {
                if c1.id == target {
                    process_spec(healed(c1, amount), c2, rest, reported)
                } else if c2.id == target {
                    process_spec(c1, healed(c2, amount), rest, reported)
                } else {
                    process_spec(c1, c2, rest, reported)
                }
            },
            _ => process_spec(c1, c2, rest, reported.push(q[0])),
        }
    }
}

#[via_fn]
proof fn process_spec_decreases(
    c1: Creature,
    c2: Creature,
    q: Seq<BattleEvent>,
    reported: Seq<BattleEvent>,
) {
    if q.len() > 0 {
        let rest = q.drop_first();
        if q[0] is Damage {
            let target = q[0]->Damage_target;
            lemma_damage_count_push(rest, BattleEvent::Fainted { creature: target });
        }
    }
}

/// A battle between two creatures, driven by an event queue.
#[derive(Debug)]
pub struct Battle {
    pub creature_one: Creature,
    pub creature_two: Creature,
    pub queue: EventQueue,
}

impl Battle {
    /// Well-formedness of both participants.
    pub open spec fn wf(self) -> bool {
        self.creature_one.wf() && self.creature_two.wf()
    }

    /// Initializes a battle with two creatures and no pending events.
    pub fn new(creature_one: Creature, creature_two: Creature) -> (r: Self)
        ensures
            r.creature_one == creature_one,
            r.creature_two == creature_two,
            r.queue@ == Seq::<BattleEvent>::empty(),
    {
        Self { creature_one, creature_two, queue: EventQueue::new() }
    }

    /// Declares an attack: enqueues the damage event, mutating nothing yet.
    pub fn attack(&mut self, attacker: CreatureId, target: CreatureId, damage: u16)
        ensures
            final(self).queue@ == old(self).queue@.push(
                BattleEvent::Damage { source: attacker, target, amount: damage },
            ),
            final(self).creature_one == old(self).creature_one,
            final(self).creature_two == old(self).creature_two,
    {
        self.queue.push(BattleEvent::Damage { source: attacker, target, amount: damage });
    }

    /// Declares a healing effect: enqueues the heal event, mutating
    /// nothing yet.
    pub fn heal(&mut self, source: CreatureId, target: CreatureId, amount: u16)
        ensures
            final(self).queue@ == old(self).queue@.push(
                BattleEvent::Heal { source, target, amount },
            ),
            final(self).creature_one == old(self).creature_one,
            final(self).creature_two == old(self).creature_two,
    {
        self.queue.push(BattleEvent::Heal { source, target, amount });
    }

    /// Drains the queue to a fixed point, applying damage and healing to
    /// the targeted creatures — a fatal damage event enqueues a fainted
    /// event within the same pass — and returns the events that are only
    /// reported, in handling order. Events targeting an unknown id are
    /// dropped.
    pub fn process_events(&mut self) -> (reported: Vec<BattleEvent>)
        requires
            old(self).wf(),
        ensures
            final(self).wf(),
            final(self).queue@.len() == 0,
            (final(self).creature_one, final(self).creature_two, reported@) == process_spec(
                old(self).creature_one,
                old(self).creature_two,
                old(self).queue@,
                Seq::<BattleEvent>::empty(),
            ),
    {
        let ghost oc1 = self.creature_one;
        let ghost oc2 = self.creature_two;
        let ghost oq = self.queue@;
        let mut reported: Vec<BattleEvent> = Vec::new();
        loop
            invariant
                self.wf(),
                process_spec(self.creature_one, self.creature_two, self.queue@, reported@)
                    == process_spec(oc1, oc2, oq, Seq::<BattleEvent>::empty()),
            ensures
                self.queue@.len() == 0,
                process_spec(self.creature_one, self.creature_two, self.queue@, reported@)
                    == process_spec(oc1, oc2, oq, Seq::<BattleEvent>::empty()),
                self.wf(),
            decreases process_measure(self.queue@),
        {
            let ghost pre_queue = self.queue@;
            match self.queue.pop() {
                None => {
                    break ;
                },
                Some(event) => {
                    match event {
                        BattleEvent::Damage { source: _, target, amount } => {
                            if self.creature_one.id == target {
                                let hp = self.creature_one.current_hp;
                                self.creature_one.current_hp = if amount >= hp {
                                    0
                                } else {
                                    hp - amount
                                };
                                if self.creature_one.current_hp == 0 {
                                    self.queue.push(BattleEvent::Fainted { creature: target });
                                    proof {
                                        lemma_damage_count_push(
                                            pre_queue.drop_first(),
                                            BattleEvent::Fainted { creature: target },
                                        );
                                    }
                                }
                            } else if self.creature_two.id == target {
                                let hp = self.creature_two.current_hp;
                                self.creature_two.current_hp = if amount >= hp {
                                    0
                                } else {
                                    hp - amount
                                };
                                if self.creature_two.current_hp == 0 {
                                    self.queue.push(BattleEvent::Fainted { creature: target });
                                    proof {
                                        lemma_damage_count_push(
                                            pre_queue.drop_first(),
                                            BattleEvent::Fainted { creature: target },
                                        );
                                    }
                                }
                            }
                        },
                        BattleEvent::Heal { source: _, target, amount } => {
                            if self.creature_one.id == target {
                                let hp = self.creature_one.current_hp as u32;
                                let max_hp = self.creature_one.individual_stats.max_hp.get();
                                let nh = hp + amount as u32;
                                self.creature_one.current_hp = if nh > max_hp as u32 {
                                    max_hp
                                } else {
                                    nh as u16
                                };
                            } else if self.creature_two.id == target {
                                let hp = self.creature_two.current_hp as u32;
                                let max_hp = self.creature_two.individual_stats.max_hp.get();
                                let nh = hp + amount as u32;
                                self.creature_two.current_hp = if nh > max_hp as u32 {
                                    max_hp
                                } else {
                                    nh as u16
                                };
                            }
                        },
                        other => {
                            reported.push(other);
                        },
                    }
                },
            }
        }
        reported
    }
}

} // verus!
