//! The wake object: a state word and a slot that hands one parked task from
//! the thread that parks it to the thread that wakes it.

use crate::kind::Key;
use crate::kind::Kind;
use crate::protocol::must_wake;
use crate::protocol::registered;
use crate::protocol::EMPTY;
use crate::protocol::NOTIFIED;
use crate::protocol::WAITING;
use crate::task::Task;
use crossbeam_utils::atomic::AtomicCell;
use std::sync::atomic::AtomicU8;
use std::sync::atomic::Ordering;
use std::sync::Arc;
use vstd::prelude::*;

verus! {

/// `crossbeam_utils::atomic::AtomicCell`: a memory location that threads
/// share and whose value is exchanged as a whole. What it holds is not
/// visible to proofs.
#[verifier::external_type_specification]
#[verifier::external_body]
#[verifier::reject_recursive_types(T)]
pub struct ExAtomicCell<T>(AtomicCell<T>);

/// `AtomicCell::new`: a cell that holds `val`. Nothing is claimed of the cell.
pub assume_specification<T>[ AtomicCell::<T>::new ](val: T) -> AtomicCell<T>;

/// `AtomicCell::store`: puts `val` into the cell and drops what the cell
/// held. Nothing is claimed of the cell.
pub assume_specification<T>[ AtomicCell::<T>::store ](cell: &AtomicCell<T>, val: T);

/// `AtomicCell::take`: the value of the cell, which is left holding the
/// default value. Other threads may have put any value there, so nothing is
/// claimed of the result.
pub assume_specification<T: Default>[ AtomicCell::<T>::take ](cell: &AtomicCell<T>) -> T;

/// A wake object bound to one task identity. It is used for one suspension:
/// its state goes from `EMPTY` over `WAITING` to `NOTIFIED` at most once.
#[verifier::reject_recursive_types(K)]
pub struct Notify<K: Kind> {
    key: Key<K>,
    task: AtomicCell<Option<Box<Task<K>>>>,
    state: AtomicU8,
}

impl<K: Kind> Notify<K> {
    /// The identity of the task that the wake object is bound to.
    pub closed spec fn spec_key(&self) -> Key<K> {
        self.key
    }

    /// A fresh wake object for the task `key`: nothing parked, not notified.
    pub fn new(key: Key<K>) -> (notify: Self)
        ensures
            notify.key() == key,
    {
        Notify { key, task: AtomicCell::new(None), state: AtomicU8::new(EMPTY) }
    }

    /// The identity of the task that the wake object is bound to.
    #[verifier::when_used_as_spec(spec_key)]
    pub fn key(&self) -> (key: Key<K>)
        ensures
            key == self.key(),
    {
        self.key
    }

    /// Parks `task`: stores it in the slot and then tries to move the state
    /// from `EMPTY` to `WAITING`. Returns whether the task is parked. In the
    /// protocol these are the steps `Deposit` and `Park`.
    ///
    /// `false` means that a notification came first. No notification will
    /// then withdraw the task: the caller has to treat it as runnable, and
    /// gets it back from [`Notify::reclaim`].
    pub fn register(&self, task: Box<Task<K>>) -> (parked: bool) {
        self.task.store(Some(task));
        let seen = self.state.compare_exchange(EMPTY, WAITING, Ordering::AcqRel, Ordering::Acquire);
        registered(seen)
    }

    /// Takes back the task of a registration that was told that the task is
    /// not parked. Returns nothing if the slot holds no task. In the protocol
    /// this is the step `Reclaim`.
    pub fn reclaim(&self) -> (task: Option<Task<K>>) {
        let taken = self.task.take();
        withdrawn(taken)
    }

    /// Parks `task`, or hands it back if a notification came first: the
    /// caller then has to queue the task again, as if it had been woken.
    /// The state word decides which of the two it is, and the slot what is
    /// handed back.
    pub fn park(&self, task: Box<Task<K>>) -> (runnable: Option<Task<K>>) {
        if self.register(task) {
            None
        } else {
            self.reclaim()
        }
    }

    /// Moves the state to `NOTIFIED`. If a task was parked, withdraws it from
    /// the slot and returns it: it has to be scheduled now. Every later call
    /// finds `NOTIFIED` and returns nothing. In the protocol these are the
    /// steps `Signal` and, if it found `WAITING`, `Withdraw`.
    pub fn notify(&self) -> (woken: Option<Task<K>>) {
        let found = self.state.swap(NOTIFIED, Ordering::AcqRel);
        if must_wake(found) {
            let taken = self.task.take();
            withdrawn(taken)
        } else {
            None
        }
    }
}

/// A wake handle: a capability over one wake object that can be cloned and
/// handed around. To wake is to notify the wake object: whether a call wakes
/// a task is decided by the state word that all clones share, and by nothing
/// in the handle.
#[verifier::reject_recursive_types(K)]
pub struct NotifyWaker<K: Kind>(Arc<Notify<K>>);

impl<K: Kind> NotifyWaker<K> {
    /// The wake object that the handle notifies.
    pub closed spec fn spec_target(&self) -> &Notify<K> {
        &*self.0
    }

    /// Mints a handle over a fresh wake object for the task `key`.
    pub fn new(key: Key<K>) -> (waker: Self)
        ensures
            waker.target().key() == key,
    {
        NotifyWaker(Arc::new(Notify::new(key)))
    }

    /// The wake object that the handle notifies; a task that suspends is
    /// registered there.
    #[verifier::when_used_as_spec(spec_target)]
    pub fn target(&self) -> (notify: &Notify<K>)
        ensures
            notify == self.target(),
    {
        &self.0
    }

    /// Notifies the wake object and gives up the handle. Returns the task
    /// that has to be scheduled now, if this call woke one.
    pub fn wake(self) -> (woken: Option<Task<K>>) {
        self.0.notify()
    }

    /// Notifies the wake object. Returns the task that has to be scheduled
    /// now, if this call woke one.
    pub fn wake_by_ref(&self) -> (woken: Option<Task<K>>) {
        self.0.notify()
    }
}

impl<K: Kind> Key<K> {
    /// Mints a wake handle over a fresh wake object for the task of this key.
    /// Every suspension of the task gets a handle of its own, so that a handle
    /// of an earlier suspension wakes nothing.
    pub fn waker(&self) -> (waker: NotifyWaker<K>)
        ensures
            waker.target().key() == *self,
    {
        NotifyWaker::new(*self)
    }
}

/// What a taker gets, given what the atomic take on the slot returned: the
/// task out of its box, or nothing if the slot was empty.
pub fn withdrawn<K: Kind>(taken: Option<Box<Task<K>>>) -> (task: Option<Task<K>>)
    ensures
        task == match taken {
            Some(boxed) => Some(*boxed),
            None => None,
        },
{
    match taken {
        Some(boxed) => Some(*boxed),
        None => None,
    }
}

impl<K: Kind> Clone for NotifyWaker<K> {
    /// Another handle over the same wake object.
    fn clone(&self) -> (waker: Self)
        ensures
            waker.target() == self.target(),
    {
        NotifyWaker(self.0.clone())
    }
}

} // verus!
