//! What is in a list of actions, and in which order.

use crate::action::{Action, Plan};
use crate::text::Text;
use vstd::prelude::*;

verus! {

/// Two lists in a row hold what each of them holds.
pub broadcast proof fn lemma_in_both(a: Plan, b: Plan, x: Action<Text>)
    ensures
        #[trigger] (a + b).contains(x) <==> a.contains(x) || b.contains(x),
{
    if a.contains(x) {
        let i = choose|i: int| 0 <= i < a.len() && a[i] == x;
        assert((a + b)[i] == x);
    }
    if b.contains(x) {
        let i = choose|i: int| 0 <= i < b.len() && b[i] == x;
        assert((a + b)[a.len() + i] == x);
    }
}

/// One action more is held.
pub broadcast proof fn lemma_in_longer(a: Plan, y: Action<Text>, x: Action<Text>)
    ensures
        #[trigger] a.push(y).contains(x) <==> a.contains(x) || x == y,
{
    if a.contains(x) {
        let i = choose|i: int| 0 <= i < a.len() && a[i] == x;
        assert(a.push(y)[i] == x);
    }
    if x == y {
        assert(a.push(y)[a.len() as int] == x);
    }
}

/// Nothing is held by an empty list.
pub broadcast proof fn lemma_in_none(x: Action<Text>)
    ensures
        !(#[trigger] Seq::<Action<Text>>::empty().contains(x)),
{
}

/// The first action, where it is taken, is taken before the second, where that
/// is taken.
#[verifier::opaque]
pub open spec fn precedes(plan: Plan, first: Action<Text>, second: Action<Text>) -> bool {
    forall|i: int, j: int|
        0 <= i < plan.len() && 0 <= j < plan.len() && #[trigger] plan[i] == first
            && #[trigger] plan[j] == second ==> i < j
}

/// Nothing is out of order in an empty list.
pub broadcast proof fn lemma_order_in_none(first: Action<Text>, second: Action<Text>)
    ensures
        #[trigger] precedes(Seq::<Action<Text>>::empty(), first, second),
{
    reveal(precedes);
}

/// Nothing is out of order in a list of one.
pub broadcast proof fn lemma_order_in_one(
    only: Action<Text>,
    first: Action<Text>,
    second: Action<Text>,
)
    ensures
        first != second ==> #[trigger] precedes(seq![only], first, second),
{
    reveal(precedes);
}

/// One action more keeps the order, unless it is the first and comes too late.
pub broadcast proof fn lemma_order_in_longer(
    a: Plan,
    last: Action<Text>,
    first: Action<Text>,
    second: Action<Text>,
)
    ensures
        precedes(a, first, second) && (last != first || (first != second && !a.contains(second)))
            ==> #[trigger] precedes(a.push(last), first, second),
{
    reveal(precedes);
}

/// Two lists in a row keep the order, unless the second action stands in the
/// one and the first in the other.
pub broadcast proof fn lemma_order_in_both(
    a: Plan,
    b: Plan,
    first: Action<Text>,
    second: Action<Text>,
)
    ensures
        precedes(a, first, second) && precedes(b, first, second) && (!a.contains(second)
            || !b.contains(first)) ==> #[trigger] precedes(a + b, first, second),
{
    reveal(precedes);
    let whole = a + b;
    if precedes(a, first, second) && precedes(b, first, second) && (!a.contains(second)
        || !b.contains(first)) {
        assert forall|i: int, j: int|
            0 <= i < whole.len() && 0 <= j < whole.len() && #[trigger] whole[i] == first
                && #[trigger] whole[j] == second implies i < j by {
            if i >= a.len() {
                assert(b[i - a.len()] == first);
                if j >= a.len() {
                    assert(b[j - a.len()] == second);
                } else {
                    assert(a[j] == second);
                }
            } else if j < a.len() {
                assert(a[i] == first);
                assert(a[j] == second);
            }
        }
    }
}

pub broadcast group group_plans {
    lemma_in_both,
    lemma_in_longer,
    lemma_in_none,
    lemma_order_in_none,
    lemma_order_in_one,
    lemma_order_in_longer,
    lemma_order_in_both,
}

} // verus!
