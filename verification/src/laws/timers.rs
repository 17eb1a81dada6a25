//! Laws of the orders behind the pending tasks.

use crate::power::resumed;
use crate::session::SessionView;
use crate::tasks::{group_task_lists, TaskId};
use crate::timers::{lemma_orders_stay_numbered, Order, Orders};
use vstd::prelude::*;

verus! {

broadcast use group_task_lists;

/// What can happen to the orders.
pub enum Use {
    /// The event of a task is ordered.
    Order(TaskId),
    /// The orders of the tasks that are not on this list are dropped.
    Keep(Seq<TaskId>),
}

/// The orders after one use.
pub open spec fn used(orders: Orders, next: Use) -> Orders {
    match next {
        Use::Order(id) => orders.ordered(id),
        Use::Keep(tasks) => orders.kept(tasks),
    }
}

/// The orders after a course of uses.
pub open spec fn after(orders: Orders, uses: Seq<Use>) -> Orders
    decreases uses.len(),
{
    if uses.len() == 0 {
        orders
    } else {
        used(after(orders, uses.drop_last()), uses.last())
    }
}

/// The tickets last for the whole course.
pub open spec fn enough_tickets(orders: Orders, uses: Seq<Use>) -> bool {
    orders.next + uses.len() < u64::MAX
}

/// The ticket was given out, and if its order is held, it is for this kind of
/// task.
pub open spec fn stands_for(orders: Orders, ticket: u64, id: TaskId) -> bool {
    &&& ticket < orders.next
    &&& forall|o: Order| #[trigger]
        orders.held.contains(o) && o.ticket == ticket ==> o.id == id
}

proof fn lemma_due(orders: Orders, ticket: u64)
    ensures
        orders.due(ticket) <==> exists|o: Order| #[trigger]
            orders.held.contains(o) && o.ticket == ticket,
{
    if orders.due(ticket) {
        let i = choose|i: int|
            0 <= i < orders.held.len() && (#[trigger] orders.held[i]).ticket == ticket;
        assert(orders.held.contains(orders.held[i]));
    }
    if exists|o: Order| #[trigger] orders.held.contains(o) && o.ticket == ticket {
        let o = choose|o: Order| #[trigger] orders.held.contains(o) && o.ticket == ticket;
        let i = choose|i: int| 0 <= i < orders.held.len() && orders.held[i] == o;
        assert(orders.held[i].ticket == ticket);
    }
}

/// In any course of uses a ticket keeps standing for its kind of task, and one
/// that is not due is never due again.
pub proof fn a_dropped_order_stays_dropped(
    orders: Orders,
    ticket: u64,
    id: TaskId,
    uses: Seq<Use>,
)
    requires
        orders.numbered(),
        enough_tickets(orders, uses),
        stands_for(orders, ticket, id),
    ensures
        after(orders, uses).numbered(),
        after(orders, uses).next <= orders.next + uses.len(),
        stands_for(after(orders, uses), ticket, id),
        !orders.due(ticket) ==> !after(orders, uses).due(ticket),
    decreases uses.len(),
{
    if uses.len() > 0 {
        let before = after(orders, uses.drop_last());
        a_dropped_order_stays_dropped(orders, ticket, id, uses.drop_last());
        match uses.last() {
            Use::Order(kind) => {
                lemma_orders_stay_numbered(before, kind, seq![]);
            },
            Use::Keep(tasks) => {
                lemma_orders_stay_numbered(before, id, tasks);
            },
        }
        lemma_due(before, ticket);
        lemma_due(after(orders, uses), ticket);
    }
}

/// An order is due from the moment it is made, for as long as its task is on
/// the list and is not ordered anew.
pub proof fn an_order_is_due_while_its_task_is_listed(
    orders: Orders,
    id: TaskId,
    other: TaskId,
    tasks: Seq<TaskId>,
)
    requires
        orders.numbered(),
        orders.next < u64::MAX - 1,
    ensures
        ({
            let made = orders.ordered(id);
            let ticket = orders.next;
            &&& made.due(ticket)
            &&& tasks.contains(id) ==> made.kept(tasks).due(ticket)
            &&& other != id ==> made.ordered(other).due(ticket)
            &&& !made.ordered(id).due(ticket)
            &&& !tasks.contains(id) ==> !made.kept(tasks).due(ticket)
        }),
{
    let made = orders.ordered(id);
    let ticket = orders.next;
    let own = Order { id, ticket };
    lemma_orders_stay_numbered(orders, id, tasks);
    lemma_orders_stay_numbered(made, other, tasks);
    lemma_orders_stay_numbered(made, id, tasks);
    lemma_due(made, ticket);
    lemma_due(made.kept(tasks), ticket);
    lemma_due(made.ordered(other), ticket);
    lemma_due(made.ordered(id), ticket);
    assert(made.held.contains(own));
    assert forall|o: Order| #[trigger] orders.held.contains(o) implies o.ticket != ticket by {
        let i = choose|i: int| 0 <= i < orders.held.len() && orders.held[i] == o;
        assert(orders.held[i].ticket < orders.next);
    }
    if tasks.contains(id) {
        assert(made.kept(tasks).held.contains(own));
    }
    if other != id {
        assert(made.ordered(other).held.contains(own));
    }
}

/// Waking cancels a pending sleep for good: whatever happened since the sleep
/// was ordered, once the device was woken and the orders follow its list of
/// tasks, that order is not due, and never will be, whatever happens later.
pub proof fn waking_silences_the_pending_sleep<V>(
    orders: Orders,
    since: Seq<Use>,
    s: SessionView<V>,
    later: Seq<Use>,
)
    requires
        orders.numbered(),
        orders.next + since.len() + later.len() + 2 < u64::MAX,
    ensures
        ({
            let ticket = orders.next;
            let asleep = after(orders.ordered(TaskId::Suspend), since);
            let awake = asleep.kept(resumed(s, TaskId::Suspend).tasks);
            &&& !awake.due(ticket)
            &&& !after(awake, later).due(ticket)
        }),
{
    let id = TaskId::Suspend;
    let ticket = orders.next;
    let made = orders.ordered(id);
    lemma_orders_stay_numbered(orders, id, seq![]);
    assert forall|o: Order| #[trigger] made.held.contains(o) && o.ticket == ticket implies o.id
        == id by {
        if orders.held.contains(o) {
            let i = choose|i: int| 0 <= i < orders.held.len() && orders.held[i] == o;
            assert(orders.held[i].ticket < orders.next);
        }
    }
    a_dropped_order_stays_dropped(made, ticket, id, since);
    let asleep = after(made, since);
    let tasks = resumed(s, id).tasks;
    let awake = asleep.kept(tasks);
    lemma_orders_stay_numbered(asleep, id, tasks);
    assert(!tasks.contains(id));
    lemma_due(awake, ticket);
    a_dropped_order_stays_dropped(awake, ticket, id, later);
}

} // verus!
