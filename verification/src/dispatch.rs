//! The dispatch queue: derived events wait here in arrival order, and the
//! worker drains them strictly first-in first-out, so two events enqueued
//! in order are delivered in that order however long the handling of the
//! first takes.

use vstd::prelude::*;

use crate::hotstate::{KeeEvent, SpecKeeEvent};

verus! {

/// A first-in first-out queue of derived events.
pub struct EventQueue {
    items: Vec<KeeEvent>,
}

impl EventQueue {
    /// The queued events, oldest first.
    pub closed spec fn contents(self) -> Seq<SpecKeeEvent> {
        self.items@.map_values(|e: KeeEvent| e@)
    }

    /// An empty queue.
    pub fn new() -> (q: EventQueue)
        ensures
            q.contents() == Seq::<SpecKeeEvent>::empty(),
    {
        let q = EventQueue { items: Vec::new() };
        proof {
            assert(q.contents() =~= Seq::<SpecKeeEvent>::empty());
        }
        q
    }

    /// The number of waiting events.
    pub fn len(&self) -> (n: usize)
        ensures
            n == self.contents().len(),
    {
        self.items.len()
    }

    /// Appends one event behind all waiting ones.
    pub fn push(&mut self, e: KeeEvent)
        ensures
            final(self).contents() == old(self).contents().push(e@),
    {
        let ghost before = self.contents();
        self.items.push(e);
        proof {
            assert(self.contents() =~= before.push(self.items@.last()@));
        }
    }

    /// Removes and returns the oldest waiting event, where there is one.
    pub fn pop_front(&mut self) -> (r: Option<KeeEvent>)
        ensures
            match r {
                Some(e) => old(self).contents().len() > 0 && e@ == old(self).contents()[0]
                    && final(self).contents() == old(self).contents().drop_first(),
                None => old(self).contents().len() == 0 && final(self).contents() == old(self).contents(),
            },
    {
        if self.items.len() == 0 {
            return None;
        }
        let ghost before = self.contents();
        let e = self.items.remove(0);
        proof {
            assert(self.contents() =~= before.drop_first());
        }
        Some(e)
    }
}

/// The events the worker delivers from a queue holding `s`, in order: the
/// k-th removal yields `s[k]`, since each removal takes the front.
pub open spec fn spec_delivery(s: Seq<SpecKeeEvent>, k: int) -> SpecKeeEvent
    recommends
        0 <= k < s.len(),
{
    s[k]
}

/// Ordering law: events are delivered in queue order. After one event is
/// enqueued and then another, the first sits at a strictly earlier
/// position, so the worker, which always removes the front, delivers it
/// strictly earlier — however slowly it handles either.
pub proof fn lemma_fifo_order(q: Seq<SpecKeeEvent>, a: SpecKeeEvent, b: SpecKeeEvent)
    ensures
        ({
            let after = q.push(a).push(b);
            &&& after[q.len() as int] == a
            &&& after[q.len() as int + 1] == b
            &&& spec_delivery(after, q.len() as int) == a
            &&& spec_delivery(after, q.len() as int + 1) == b
            &&& q.len() < q.len() as int + 1 < after.len()
        }),
{
}

/// Draining one event from the front leaves the rest in their order: what
/// was at position `k + 1` is delivered next at position `k`.
pub proof fn lemma_drain_preserves_order(s: Seq<SpecKeeEvent>, k: int)
    requires
        0 <= k,
        k + 1 < s.len(),
    ensures
        spec_delivery(s.drop_first(), k) == spec_delivery(s, k + 1),
{
}

} // verus!
