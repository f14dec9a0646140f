//! The order store: the received orders, in the order in which they arrived.
//!
//! `OrderStore` is the store as one owner sees it. Its view is the sequence of
//! the stored orders' views; appending pushes onto that sequence and listing
//! copies it, and nothing else ever changes it.

use vstd::prelude::*;
use crate::error::DeserializationError;
use crate::model::{Order, OrderResponse, OrderView, pending_response};

verus! {

/// The orders received so far, oldest first. It starts empty and only grows: a
/// stored order is never changed, moved or dropped.
#[derive(Debug)]
pub struct OrderStore {
    orders: Vec<Order>,
}

impl View for OrderStore {
    type V = Seq<OrderView>;

    closed spec fn view(&self) -> Seq<OrderView> {
        self.orders.deep_view()
    }
}

impl OrderStore {
    /// A store that holds no order yet.
    pub fn new() -> (store: OrderStore)
        ensures
            store@ == Seq::<OrderView>::empty(),
    {
        let store = OrderStore { orders: Vec::new() };
        assert(store.orders.deep_view() =~= Seq::<OrderView>::empty());
        store
    }

    /// How many orders the store holds.
    pub fn len(&self) -> (count: usize)
        ensures
            count == self@.len(),
    {
        self.orders.len()
    }

    /// Puts `order` behind every order already stored and answers it with its
    /// own identifier and the status "pending". No order is turned away: the
    /// identifier may be empty or already taken.
    pub fn append(&mut self, order: Order) -> (response: OrderResponse)
        ensures
            final(self)@ == old(self)@.push(order@),
            response@ == pending_response(order@.order_uid),
    {
        let response = OrderResponse::pending(order.order_uid.clone());
        self.orders.push(order);
        assert(self.orders.deep_view() =~= old(self).orders.deep_view().push(order@));
        response
    }

    /// A copy of every stored order, oldest first. The copy is the caller's:
    /// later appends to the store do not reach it.
    pub fn list(&self) -> (snapshot: Vec<Order>)
        ensures
            snapshot.deep_view() == self@,
    {
        let mut snapshot: Vec<Order> = Vec::new();
        let mut i: usize = 0;
        while i < self.orders.len()
            invariant
                i <= self.orders.len(),
                snapshot.len() == i,
                forall|k: int| 0 <= k < i ==> snapshot[k]@ == self.orders[k]@,
            decreases self.orders.len() - i,
        {
            snapshot.push(self.orders[i].clone());
            i += 1;
        }
        assert(snapshot.deep_view() =~= self.orders.deep_view());
        snapshot
    }

    /// Takes in what the transport made of a request body. A body that decoded
    /// to an order is appended and answered as by `append`; one that failed to
    /// decode leaves the store exactly as it was, and its error goes back to
    /// the caller untouched.
    pub fn receive(&mut self, decoded: Result<Order, DeserializationError>) -> (outcome: Result<
        OrderResponse,
        DeserializationError,
    >)
        ensures
            match decoded {
                Ok(order) => {
                    &&& final(self)@ == old(self)@.push(order@)
                    &&& outcome matches Ok(response)
                    &&& response@ == pending_response(order@.order_uid)
                },
                Err(error) => {
                    &&& final(self)@ == old(self)@
                    &&& outcome == Err::<OrderResponse, DeserializationError>(error)
                },
            },
    {
        match decoded {
            Ok(order) => Ok(self.append(order)),
            Err(error) => Err(error),
        }
    }
}

/// What a store that held `start` holds once the orders `arrivals` have been
/// appended to it one after the other, first to last.
pub open spec fn after_appends(start: Seq<OrderView>, arrivals: Seq<OrderView>) -> Seq<OrderView>
    decreases arrivals.len(),
{
    if arrivals.len() == 0 {
        start
    } else {
        after_appends(start, arrivals.drop_last()).push(arrivals.last())
    }
}

/// No two orders of `orders` carry the same identifier.
pub open spec fn distinct_uids(orders: Seq<OrderView>) -> bool {
    forall|i: int, j: int|
        0 <= i < j < orders.len() ==> orders[i].order_uid != orders[j].order_uid
}

/// Appending an order and then listing the store yields a snapshot that holds
/// an order structurally equal to the appended one; it is the last of the
/// snapshot, behind all that the store held before.
pub proof fn lemma_appended_order_is_listed(
    before: OrderStore,
    order: Order,
    after: OrderStore,
    snapshot: Vec<Order>,
)
    requires
        after@ == before@.push(order@),
        snapshot.deep_view() == after@,
    ensures
        exists|i: int| 0 <= i < snapshot.len() && snapshot[i]@ == order@,
        snapshot.len() == before@.len() + 1,
        snapshot[snapshot.len() - 1]@ == order@,
{
    assert(snapshot.deep_view().len() == snapshot.len());
    let last = snapshot.len() - 1;
    assert(snapshot.deep_view()[last] == snapshot[last]@);
}

/// Listing a store to which nothing was appended yields an empty snapshot.
pub proof fn lemma_fresh_store_lists_nothing(store: OrderStore, snapshot: Vec<Order>)
    requires
        store@ == Seq::<OrderView>::empty(),
        snapshot.deep_view() == store@,
    ensures
        snapshot.len() == 0,
{
    assert(snapshot.deep_view().len() == snapshot.len());
}

/// Appends keep arrival order: after any run of appends the store holds what it
/// held before, unchanged and in place, followed by the arrivals in the order
/// in which they were appended.
pub proof fn lemma_appends_keep_arrival_order(start: Seq<OrderView>, arrivals: Seq<OrderView>)
    ensures
        after_appends(start, arrivals) == start + arrivals,
    decreases arrivals.len(),
{
    if arrivals.len() == 0 {
        assert(start + arrivals =~= start);
    } else {
        lemma_appends_keep_arrival_order(start, arrivals.drop_last());
        assert((start + arrivals.drop_last()).push(arrivals.last()) =~= start + arrivals);
    }
}

/// An order stays listed once it was appended, at the place it arrived at,
/// whatever is appended after it.
pub proof fn lemma_later_appends_keep_order_listed(
    before: Seq<OrderView>,
    order: OrderView,
    later: Seq<OrderView>,
)
    ensures
        after_appends(before.push(order), later).contains(order),
        after_appends(before.push(order), later)[before.len() as int] == order,
{
    lemma_appends_keep_arrival_order(before.push(order), later);
    let stored = before.push(order) + later;
    assert(stored[before.len() as int] == order);
}

/// Callers that append through the lock are admitted one at a time, in some
/// order `arrivals` of the orders `submitted`. Whatever that order is, a store
/// that was empty then holds exactly the submitted orders: as many as were
/// submitted, none lost and none doubled. Where the submitted identifiers are
/// pairwise distinct, so are the stored ones, and each submitted order is found
/// whole at exactly one place.
pub proof fn lemma_no_append_is_lost_or_doubled(
    submitted: Seq<OrderView>,
    arrivals: Seq<OrderView>,
)
    requires
        arrivals.to_multiset() == submitted.to_multiset(),
        distinct_uids(submitted),
    ensures
        after_appends(Seq::empty(), arrivals).len() == submitted.len(),
        after_appends(Seq::empty(), arrivals).to_multiset() == submitted.to_multiset(),
        distinct_uids(after_appends(Seq::empty(), arrivals)),
        forall|k: int|
            0 <= k < submitted.len() ==> after_appends(Seq::empty(), arrivals).contains(
                #[trigger] submitted[k],
            ),
{
    let stored = after_appends(Seq::empty(), arrivals);
    lemma_appends_keep_arrival_order(Seq::empty(), arrivals);
    assert(Seq::<OrderView>::empty() + arrivals =~= arrivals);
    assert(stored == arrivals);
    vstd::seq_lib::to_multiset_len(arrivals);
    vstd::seq_lib::to_multiset_len(submitted);
    assert forall|k: int| 0 <= k < submitted.len() implies stored.contains(
        #[trigger] submitted[k],
    ) by {
        assert(submitted.contains(submitted[k]));
        vstd::seq_lib::to_multiset_contains(submitted, submitted[k]);
        vstd::seq_lib::to_multiset_contains(stored, submitted[k]);
    }
    assert forall|i: int, j: int| 0 <= i < j < stored.len() implies stored[i].order_uid
        != stored[j].order_uid by {
        assert(submitted.no_duplicates());
        submitted.lemma_multiset_has_no_duplicates();
        stored.lemma_multiset_has_no_duplicates_conv();
        assert(stored[i] != stored[j]);
        assert(stored.contains(stored[i]));
        assert(stored.contains(stored[j]));
        vstd::seq_lib::to_multiset_contains(stored, stored[i]);
        vstd::seq_lib::to_multiset_contains(submitted, stored[i]);
        vstd::seq_lib::to_multiset_contains(stored, stored[j]);
        vstd::seq_lib::to_multiset_contains(submitted, stored[j]);
        let a = choose|a: int| 0 <= a < submitted.len() && submitted[a] == stored[i];
        let b = choose|b: int| 0 <= b < submitted.len() && submitted[b] == stored[j];
        assert(a != b);
    }
}

} // verus!
