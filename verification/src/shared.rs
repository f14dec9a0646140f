//! The store behind its lock: the one store of a process, reached by every
//! caller through `create_order` and `get_orders`.
//!
//! The lock is `std::sync::Mutex`. It is taken right before the store is
//! touched and given up right after: while it is held the store is appended to
//! once or copied once, and nothing else happens. Callers are thereby admitted
//! one at a time, so what the store goes through is a sequence of the appends
//! and listings of `OrderStore`; what that type's contracts and lemmas say
//! holds of each step.
//!
//! Whether the lock is healthy, and what the store holds at the moment a caller
//! is admitted, depends on every other caller. The contracts of `create_order`
//! and `get_orders` therefore speak of the store as the caller found it under
//! this state's lock, whatever that was: the one appends to exactly that, the
//! other copies exactly that. What they do once the lock has answered is in
//! `acquired`, `append_held` and `list_held`, which take that answer as an
//! argument and say exactly what comes of it.

use vstd::prelude::*;
use crate::error::LockAcquisitionFailure;
use crate::model::{Order, OrderResponse, OrderView, pending_response};
use crate::store::OrderStore;

verus! {

/// `std::sync::Mutex`, as a type that can be held and passed on. Nothing of
/// what it guards is visible in a contract.
#[verifier::external_type_specification]
#[verifier::external_body]
#[verifier::reject_recursive_types(T)]
pub struct ExMutex<T: ?Sized>(std::sync::Mutex<T>);

/// `std::sync::MutexGuard`, the proof of holding the lock; dropping it gives
/// the lock up.
#[verifier::external_type_specification]
#[verifier::external_body]
#[verifier::reject_recursive_types(T)]
pub struct ExMutexGuard<'a, T: ?Sized + 'a>(std::sync::MutexGuard<'a, T>);

/// `std::sync::PoisonError`, which `Mutex::lock` returns in place of the guard
/// when an earlier holder panicked.
#[verifier::external_type_specification]
#[verifier::external_body]
#[verifier::reject_recursive_types(T)]
pub struct ExPoisonError<T>(std::sync::PoisonError<T>);

/// What a mutex was made around: the orders of the store that `Mutex::new` was
/// given, whatever the mutex has come to guard since.
pub uninterp spec fn made_with(lock: std::sync::Mutex<OrderStore>) -> Seq<OrderView>;

/// What a guard guards: the orders of the store that its holder reads and
/// writes through it.
pub uninterp spec fn held(guard: std::sync::MutexGuard<'_, OrderStore>) -> Seq<OrderView>;

/// The mutex that a guard was taken from. A guard belongs to one mutex for as
/// long as it lives.
pub uninterp spec fn lock_of(guard: std::sync::MutexGuard<'_, OrderStore>) -> std::sync::Mutex<
    OrderStore,
>;

/// `Mutex::new` wraps the store in a lock that nobody holds. The contract
/// claims that the mutex was made around that very store.
#[verifier::external_body]
fn new_lock(store: OrderStore) -> (lock: std::sync::Mutex<OrderStore>)
    ensures
        made_with(lock) == store@,
{
    std::sync::Mutex::new(store)
}

/// `Mutex::lock` waits until the lock is free and returns its guard, or the
/// poison error if an earlier holder panicked. Which of the two comes back,
/// and what the guard then guards, depends on the other callers; the contract
/// claims only that a guard that comes back is a guard of the mutex that was
/// locked. A thread that already holds the lock must not call it again:
/// `create_order` and `get_orders`, the only callers, call nothing that takes
/// a lock while they hold the guard, and drop the guard before they return.
#[verifier::external_body]
fn lock_store<'a>(lock: &'a std::sync::Mutex<OrderStore>) -> (outcome: Result<
    std::sync::MutexGuard<'a, OrderStore>,
    std::sync::PoisonError<std::sync::MutexGuard<'a, OrderStore>>,
>)
    ensures
        outcome matches Ok(guard) ==> lock_of(guard) == *lock,
{
    lock.lock()
}

/// `MutexGuard::deref` lends out the guarded store for reading. The contract
/// claims that the store lent out is the one that the guard guards.
#[verifier::external_body]
fn guarded<'a, 'g>(guard: &'a std::sync::MutexGuard<'g, OrderStore>) -> (store: &'a OrderStore)
    ensures
        store@ == held(*guard),
{
    std::ops::Deref::deref(guard)
}

/// `MutexGuard::deref_mut` lends out the guarded store for writing. The
/// contract claims that the store lent out is the one that the guard guards,
/// that the guard guards whatever the borrower leaves behind, and that it is
/// still a guard of the same mutex.
#[verifier::external_body]
fn guarded_mut<'a, 'g>(guard: &'a mut std::sync::MutexGuard<'g, OrderStore>) -> (store:
    &'a mut OrderStore)
    ensures
        store@ == held(*old(guard)),
        held(*final(guard)) == final(store)@,
        lock_of(*final(guard)) == lock_of(*old(guard)),
{
    std::ops::DerefMut::deref_mut(guard)
}

/// The one store of a process together with the lock that every reader and
/// writer of it takes. It is made once, before the first caller, and handed to
/// each caller by reference or behind a shared pointer; it lives as long as the
/// process and is never torn down.
pub struct SharedState {
    store: std::sync::Mutex<OrderStore>,
}

impl SharedState {
    /// The orders that the store held when the state was made.
    pub closed spec fn initial(&self) -> Seq<OrderView> {
        made_with(self.store)
    }

    /// `guard` is a guard of this state's lock: what it guards is this state's
    /// store, as its holder finds and leaves it.
    pub closed spec fn guarded_by(&self, guard: std::sync::MutexGuard<'_, OrderStore>) -> bool {
        lock_of(guard) == self.store
    }

    /// A new store that holds no order, behind a lock that nobody holds.
    pub fn new() -> (state: SharedState)
        ensures
            state.initial() == Seq::<OrderView>::empty(),
    {
        SharedState { store: new_lock(OrderStore::new()) }
    }
}

/// What taking the lock came to: the guard where the lock was healthy, and
/// `LockAcquisitionFailure` where an earlier holder had panicked and left it
/// poisoned. The poison error, and the guard inside it, are dropped.
pub fn acquired<'a>(
    locked: Result<
        std::sync::MutexGuard<'a, OrderStore>,
        std::sync::PoisonError<std::sync::MutexGuard<'a, OrderStore>>,
    >,
) -> (outcome: Result<std::sync::MutexGuard<'a, OrderStore>, LockAcquisitionFailure>)
    ensures
        match locked {
            Ok(guard) => outcome == Ok::<
                std::sync::MutexGuard<'a, OrderStore>,
                LockAcquisitionFailure,
            >(guard),
            Err(_) => outcome == Err::<
                std::sync::MutexGuard<'a, OrderStore>,
                LockAcquisitionFailure,
            >(LockAcquisitionFailure),
        },
{
    match locked {
        Ok(guard) => Ok(guard),
        Err(_) => Err(LockAcquisitionFailure),
    }
}

/// Appends `order` to the store behind `guard`, as `OrderStore::append` does:
/// the guarded store then holds what it held, followed by `order`, and the
/// answer carries the order's identifier and the status "pending". The guard
/// stays a guard of the mutex it was taken from.
pub fn append_held(guard: &mut std::sync::MutexGuard<'_, OrderStore>, order: Order) -> (response:
    OrderResponse)
    ensures
        held(*final(guard)) == held(*old(guard)).push(order@),
        lock_of(*final(guard)) == lock_of(*old(guard)),
        response@ == pending_response(order@.order_uid),
{
    let store = guarded_mut(guard);
    store.append(order)
}

/// Copies every order of the store behind `guard`, oldest first, as
/// `OrderStore::list` does.
pub fn list_held(guard: &std::sync::MutexGuard<'_, OrderStore>) -> (snapshot: Vec<Order>)
    ensures
        snapshot.deep_view() == held(*guard),
{
    guarded(guard).list()
}

/// Takes the lock, appends `order` behind every order already stored, gives the
/// lock up and answers with the order's identifier and the status "pending".
/// Once the call has returned, every later `get_orders` shows the order.
///
/// The only failure is a poisoned lock; the store is then left alone. Whether
/// the lock is poisoned, and what the store holds when the caller is admitted,
/// is the other callers' doing. Where the call succeeds, the caller held this
/// state's lock, and the store that it found under the lock was left with
/// `order` behind everything it held, and with no other change.
pub fn create_order(state: &SharedState, order: Order) -> (outcome: Result<
    OrderResponse,
    LockAcquisitionFailure,
>)
    ensures
        outcome matches Ok(response) ==> response@ == pending_response(order@.order_uid),
        outcome is Ok ==> exists|
            before: std::sync::MutexGuard<'static, OrderStore>,
            after: std::sync::MutexGuard<'static, OrderStore>,
        |
            {
                &&& state.guarded_by(before)
                &&& state.guarded_by(after)
                &&& #[trigger] held(after) == (#[trigger] held(before)).push(order@)
            },
{
    match acquired(lock_store(&state.store)) {
        Ok(mut guard) => {
            let ghost before = guard;
            let response = append_held(&mut guard, order);
            proof {
                let after = guard;
                assert(state.guarded_by(before) && state.guarded_by(after) && held(after) == held(
                    before,
                ).push(order@));
            }
            Ok(response)
        },
        Err(failure) => Err(failure),
    }
}

/// Takes the lock, copies every stored order, oldest first, gives the lock up
/// and returns the copy. The copy shows each order that was appended before
/// the lock was taken, whole and in arrival order, and is out of reach of
/// every later append.
///
/// The only failure is a poisoned lock. Whether the lock is poisoned, and what
/// the store holds when the caller is admitted, is the other callers' doing.
/// Where the call succeeds, the caller held this state's lock, and the copy is
/// of the store as it stood under the lock: all of it, in order.
pub fn get_orders(state: &SharedState) -> (outcome: Result<Vec<Order>, LockAcquisitionFailure>)
    ensures
        outcome matches Ok(snapshot) ==> exists|guard: std::sync::MutexGuard<'static, OrderStore>|
            state.guarded_by(guard) && snapshot.deep_view() == #[trigger] held(guard),
{
    match acquired(lock_store(&state.store)) {
        Ok(guard) => {
            let snapshot = list_held(&guard);
            assert(state.guarded_by(guard) && snapshot.deep_view() == held(guard));
            Ok(snapshot)
        },
        Err(failure) => Err(failure),
    }
}

} // verus!
