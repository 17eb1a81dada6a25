//! The orders behind the pending tasks: which of them still send their event
//! when their time is up.

use crate::tasks::{TaskId, TaskList};
use vstd::prelude::*;

verus! {

/// An order for the event of a task. No two orders have the same ticket.
#[derive(Clone, Copy, Debug, PartialEq, Eq, Structural)]
pub struct Order {
    pub id: TaskId,
    pub ticket: u64,
}

/// The model of the orders: those that are held, and the ticket that the next
/// one gets.
pub struct Orders {
    pub held: Seq<Order>,
    pub next: u64,
}

impl Orders {
    /// The order with this ticket sends its event when its time is up.
    pub open spec fn due(self, ticket: u64) -> bool {
        exists|i: int| 0 <= i < self.held.len() && (#[trigger] self.held[i]).ticket == ticket
    }

    /// Every ticket was given out before the next one, and to one order only.
    pub open spec fn numbered(self) -> bool {
        &&& forall|i: int| 0 <= i < self.held.len() ==> (#[trigger] self.held[i]).ticket < self.next
        &&& forall|i: int, j: int|
            0 <= i < j < self.held.len() ==> (#[trigger] self.held[i]).ticket != (
            #[trigger] self.held[j]).ticket
    }

    /// The order for a task takes the place of one for the same kind of task.
    pub open spec fn ordered(self, id: TaskId) -> Orders {
        Orders {
            held: self.held.filter(|o: Order| o.id != id).push(Order { id, ticket: self.next }),
            next: (self.next + 1) as u64,
        }
    }

    /// The orders of the tasks that are on the list stay, the others go.
    pub open spec fn kept(self, tasks: Seq<TaskId>) -> Orders {
        Orders { held: self.held.filter(|o: Order| tasks.contains(o.id)), next: self.next }
    }
}

/// What is in a sequence after it was filtered: what was in it, no more often,
/// and in the same order.
proof fn lemma_filter_orders(held: Seq<Order>, keep: spec_fn(Order) -> bool, next: u64)
    requires
        (Orders { held, next }).numbered(),
    ensures
        (Orders { held: held.filter(keep), next }).numbered(),
        forall|o: Order| #[trigger] held.filter(keep).contains(o) <==> held.contains(o) && keep(o),
    decreases held.len(),
{
    reveal(Seq::filter);
    if held.len() > 0 {
        let rest = held.drop_last();
        let last = held.last();
        let kept = rest.filter(keep);
        assert((Orders { held: rest, next }).numbered());
        lemma_filter_orders(rest, keep, next);
        assert forall|o: Order| #[trigger] held.contains(o) <==> rest.contains(o) || o == last by {
            if rest.contains(o) {
                let j = choose|j: int| 0 <= j < rest.len() && rest[j] == o;
                assert(held[j] == o);
            }
            if o == last {
                assert(held[held.len() - 1] == o);
            }
            if held.contains(o) && o != last {
                let j = choose|j: int| 0 <= j < held.len() && held[j] == o;
                assert(rest[j] == o);
            }
        }
        assert forall|i: int| 0 <= i < kept.len() implies (#[trigger] kept[i]).ticket
            != last.ticket by {
            assert(kept.contains(kept[i]));
            let j = choose|j: int| 0 <= j < rest.len() && rest[j] == kept[i];
            assert(held[j].ticket != held[held.len() - 1].ticket);
        }
        assert forall|o: Order| #[trigger] held.filter(keep).contains(o) <==> held.contains(o)
            && keep(o) by {
            if keep(last) {
                let whole = kept.push(last);
                if kept.contains(o) {
                    let j = choose|j: int| 0 <= j < kept.len() && kept[j] == o;
                    assert(whole[j] == o);
                }
                if o == last {
                    assert(whole[kept.len() as int] == o);
                }
                if whole.contains(o) && o != last {
                    let j = choose|j: int| 0 <= j < whole.len() && whole[j] == o;
                    assert(kept[j] == o);
                }
            }
        }
    }
}

/// The orders stay numbered, and hold what they held but for what was dropped.
pub proof fn lemma_orders_stay_numbered(orders: Orders, id: TaskId, tasks: Seq<TaskId>)
    requires
        orders.numbered(),
    ensures
        orders.next < u64::MAX ==> orders.ordered(id).numbered(),
        orders.kept(tasks).numbered(),
        forall|o: Order| #[trigger]
            orders.ordered(id).held.contains(o) <==> o == (Order { id, ticket: orders.next }) || (
            orders.held.contains(o) && o.id != id),
        forall|o: Order| #[trigger]
            orders.kept(tasks).held.contains(o) <==> orders.held.contains(o) && tasks.contains(
                o.id,
            ),
{
    let others = |o: Order| o.id != id;
    let listed = |o: Order| tasks.contains(o.id);
    lemma_filter_orders(orders.held, others, orders.next);
    lemma_filter_orders(orders.held, listed, orders.next);
    let kept = orders.held.filter(others);
    let new = Order { id, ticket: orders.next };
    let whole = kept.push(new);
    assert forall|o: Order| #[trigger] whole.contains(o) <==> o == new || kept.contains(o) by {
        if kept.contains(o) {
            let j = choose|j: int| 0 <= j < kept.len() && kept[j] == o;
            assert(whole[j] == o);
        }
        if o == new {
            assert(whole[kept.len() as int] == o);
        }
        if whole.contains(o) && o != new {
            let j = choose|j: int| 0 <= j < whole.len() && whole[j] == o;
            assert(kept[j] == o);
        }
    }
}

/// The orders that still send their event.
#[derive(Debug)]
pub struct Timers {
    held: Vec<Order>,
    next: u64,
}

impl View for Timers {
    type V = Orders;

    closed spec fn view(&self) -> Orders {
        Orders { held: self.held@, next: self.next }
    }
}

impl Timers {
    #[verifier::type_invariant]
    spec fn numbered(self) -> bool {
        self@.numbered()
    }

    /// Nothing is ordered.
    pub fn new() -> (timers: Timers)
        ensures
            timers@ == (Orders { held: seq![], next: 0 }),
    {
        let timers = Timers { held: Vec::new(), next: 0 };
        assert(timers@.held =~= seq![]);
        timers
    }

    /// Whether there is a ticket for one more order.
    pub fn has_ticket(&self) -> (answer: bool)
        ensures
            answer == (self@.next < u64::MAX),
    {
        self.next < u64::MAX
    }

    /// Orders the event of a task, in place of one for the same kind of task.
    pub fn order(&mut self, id: TaskId) -> (ticket: u64)
        requires
            old(self)@.next < u64::MAX,
        ensures
            ticket == old(self)@.next,
            final(self)@ == old(self)@.ordered(id),
    {
        proof {
            use_type_invariant(&*self);
            lemma_orders_stay_numbered(self@, id, seq![]);
            reveal(Seq::filter);
        }
        let ghost others = |o: Order| o.id != id;
        let mut held: Vec<Order> = Vec::new();
        for i in 0..self.held.len()
            invariant
                others == (|o: Order| o.id != id),
                held@ == self.held@.take(i as int).filter(others),
        {
            proof {
                reveal(Seq::filter);
                assert(self.held@.take(i + 1).drop_last() =~= self.held@.take(i as int));
            }
            if self.held[i].id != id {
                held.push(self.held[i]);
            }
        }
        assert(self.held@.take(self.held@.len() as int) =~= self.held@);
        let ticket: u64 = self.next;
        held.push(Order { id, ticket });
        *self = Timers { held, next: ticket + 1 };
        ticket
    }

    /// Drops the orders of the tasks that are no longer on the list.
    pub fn keep(&mut self, tasks: &TaskList)
        ensures
            final(self)@ == old(self)@.kept(tasks@),
    {
        proof {
            use_type_invariant(&*self);
            lemma_orders_stay_numbered(self@, TaskId::Suspend, tasks@);
            reveal(Seq::filter);
        }
        let ghost listed = |o: Order| tasks@.contains(o.id);
        let mut held: Vec<Order> = Vec::new();
        for i in 0..self.held.len()
            invariant
                listed == (|o: Order| tasks@.contains(o.id)),
                held@ == self.held@.take(i as int).filter(listed),
        {
            proof {
                reveal(Seq::filter);
                assert(self.held@.take(i + 1).drop_last() =~= self.held@.take(i as int));
            }
            if tasks.contains(self.held[i].id) {
                held.push(self.held[i]);
            }
        }
        assert(self.held@.take(self.held@.len() as int) =~= self.held@);
        *self = Timers { held, next: self.next };
    }

    /// Whether the order with this ticket sends its event, now that its time
    /// is up.
    pub fn is_due(&self, ticket: u64) -> (due: bool)
        ensures
            due == self@.due(ticket),
    {
        for i in 0..self.held.len()
            invariant
                forall|j: int| 0 <= j < i ==> (#[trigger] self.held@[j]).ticket != ticket,
        {
            if self.held[i].ticket == ticket {
                assert(self@.held[i as int].ticket == ticket);
                return true;
            }
        }
        false
    }
}

} // verus!
