//! A strict FIFO queue of battle events.

use vstd::prelude::*;

verus! {

use crate::event::BattleEvent;

/// A first-in-first-out buffer of pending battle events: `push` appends,
/// `pop` removes from the front, `drain` empties the queue in order.
#[derive(Debug)]
pub struct EventQueue {
    events: Vec<BattleEvent>,
}

impl View for EventQueue {
    type V = Seq<BattleEvent>;

    closed spec fn view(&self) -> Seq<BattleEvent> {
        self.events@
    }
}

impl EventQueue {
    /// An empty queue.
    pub fn new() -> (r: Self)
        ensures
            r@ == Seq::<BattleEvent>::empty(),
    {
        Self { events: Vec::new() }
    }

    /// Appends an event at the back.
    pub fn push(&mut self, event: BattleEvent)
        ensures
            final(self)@ == old(self)@.push(event),
    {
        self.events.push(event);
    }

    /// Whether no event is pending.
    pub fn is_empty(&self) -> (r: bool)
        ensures
            r <==> self@.len() == 0,
    {
        self.events.is_empty()
    }

    /// The number of pending events.
    pub fn len(&self) -> (r: usize)
        ensures
            r == self@.len(),
    {
        self.events.len()
    }

    /// Removes and returns the front event, oldest first.
    pub fn pop(&mut self) -> (r: Option<BattleEvent>)
        ensures
            old(self)@.len() == 0 ==> r is None && final(self)@ == old(self)@,
            old(self)@.len() > 0 ==> r == Some(old(self)@[0]) && final(self)@ == old(
                self,
            )@.drop_first(),
    {
        if self.events.is_empty() {
            None
        } else {
            let ev = self.events.remove(0);
            proof {
                assert(self.events@ =~= old(self)@.drop_first());
            }
            Some(ev)
        }
    }

    /// Empties the queue, returning every pending event in original order.
    pub fn drain(&mut self) -> (r: Vec<BattleEvent>)
        ensures
            r@ == old(self)@,
            final(self)@ == Seq::<BattleEvent>::empty(),
    {
        let mut drained: Vec<BattleEvent> = Vec::new();
        core::mem::swap(&mut self.events, &mut drained);
        drained
    }
}

impl Default for EventQueue {
    fn default() -> (r: Self)
        ensures
            r@ == Seq::<BattleEvent>::empty(),
    {
        Self::new()
    }
}

/// Draining an already-empty queue is a no-op and yields no events: by
/// `drain`'s contract the returned events are the queue's former contents —
/// none — and the queue afterwards equals what it held before — nothing.
pub proof fn lemma_drain_of_empty_queue_is_noop(
    before: Seq<BattleEvent>,
    returned: Seq<BattleEvent>,
    after: Seq<BattleEvent>,
)
    requires
        before.len() == 0,
        returned == before,
        after.len() == 0,
    ensures
        returned.len() == 0,
        after == before,
{
    assert(after =~= before);
}

} // verus!
