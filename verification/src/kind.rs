//! The two execution domains, the payload shapes of each, and task identities.

use crate::suspend::follows;
use crate::suspend::Poll;
use crate::suspend::Script;
use crate::suspend::Suspend;
use std::marker::PhantomData;
use std::task::Context;
use vstd::prelude::*;

verus! {

/// The thread-affine domain: its tasks run on the worker that created them.
#[derive(Debug, Copy, Clone, Eq, PartialEq, Hash)]
pub struct Local;

/// The transferable domain: its tasks may run on any worker.
#[derive(Debug, Copy, Clone, Eq, PartialEq, Hash)]
pub struct Remote;

/// A deferred action of the local domain: it is invoked once, which consumes
/// it, and runs to completion.
pub trait LocalCall {
    /// Invokes the action.
    fn call(self: Box<Self>);
}

/// A deferred action of the remote domain, which may cross threads.
pub trait RemoteCall: Send {
    /// Invokes the action.
    fn call(self: Box<Self>);
}

/// A suspendable computation of the local domain that yields nothing.
pub trait LocalFut {
    /// What the computation announces of its coming polls.
    open spec fn script(&self) -> Script<()> {
        Script::Free
    }

    /// Polls the computation once.
    fn resume(&mut self, cx: &mut Context<'_>) -> (outcome: Poll<()>)
        requires
            !(old(self).script() is Spent),
        ensures
            follows(old(self).script(), outcome, final(self).script()),
    ;
}

impl<F: Suspend<Output = ()>> LocalFut for F {
    open spec fn script(&self) -> Script<()> {
        Suspend::script(self)
    }

    fn resume(&mut self, cx: &mut Context<'_>) -> (outcome: Poll<()>) {
        self.poll(cx)
    }
}

/// A suspendable computation of the remote domain that yields nothing; it may
/// cross threads.
pub trait RemoteFut: Send {
    /// What the computation announces of its coming polls.
    open spec fn script(&self) -> Script<()> {
        Script::Free
    }

    /// Polls the computation once.
    fn resume(&mut self, cx: &mut Context<'_>) -> (outcome: Poll<()>)
        requires
            !(old(self).script() is Spent),
        ensures
            follows(old(self).script(), outcome, final(self).script()),
    ;
}

impl<F: Suspend<Output = ()> + Send> RemoteFut for F {
    open spec fn script(&self) -> Script<()> {
        Suspend::script(self)
    }

    fn resume(&mut self, cx: &mut Context<'_>) -> (outcome: Poll<()>) {
        self.poll(cx)
    }
}

/// An execution domain: the shapes of its two payloads and how each is driven.
/// A payload sits in a box, so that a computation keeps its address from its
/// first poll to its last.
pub trait Kind: Copy {
    /// A deferred action that takes no argument.
    type Call;

    /// A suspendable computation that yields nothing.
    type Fut;

    /// What the computation announces of its coming polls.
    spec fn script(fut: &Self::Fut) -> Script<()>;

    /// Invokes a deferred action, which consumes it.
    fn call(call: Self::Call);

    /// Polls a suspendable computation once.
    fn resume(fut: &mut Self::Fut, cx: &mut Context<'_>) -> (outcome: Poll<()>)
        requires
            !(Self::script(old(fut)) is Spent),
        ensures
            follows(Self::script(old(fut)), outcome, Self::script(final(fut))),
    ;
}

impl Kind for Local {
    type Call = Box<dyn LocalCall>;

    type Fut = Box<dyn LocalFut>;

    open spec fn script(fut: &Self::Fut) -> Script<()> {
        fut.script()
    }

    fn call(call: Self::Call) {
        call.call()
    }

    fn resume(fut: &mut Self::Fut, cx: &mut Context<'_>) -> (outcome: Poll<()>) {
        fut.resume(cx)
    }
}

impl Kind for Remote {
    type Call = Box<dyn RemoteCall>;

    type Fut = Box<dyn RemoteFut>;

    open spec fn script(fut: &Self::Fut) -> Script<()> {
        fut.script()
    }

    fn call(call: Self::Call) {
        call.call()
    }

    fn resume(fut: &mut Self::Fut, cx: &mut Context<'_>) -> (outcome: Poll<()>) {
        fut.resume(cx)
    }
}

/// The identity of a task within its domain. It addresses a wake object and is
/// never used as a memory location.
#[derive(Debug, Copy, Eq, PartialEq, Hash)]
pub struct Key<K: Kind>(usize, PhantomData<K>);

impl<K: Kind> Clone for Key<K> {
    fn clone(&self) -> (copy: Self)
        ensures
            copy == *self,
    {
        *self
    }
}

impl<K: Kind> Key<K> {
    /// The number that identifies the task.
    pub closed spec fn spec_id(&self) -> usize {
        self.0
    }

    /// The key with the given number.
    pub fn new(id: usize) -> (key: Self)
        ensures
            key.id() == id,
    {
        Key(id, PhantomData)
    }

    /// Whether two keys are the same identity.
    pub fn same(&self, other: &Self) -> (same: bool)
        ensures
            same == (*self == *other),
            same == (self.id() == other.id()),
    {
        self.0 == other.0
    }

    /// The number that identifies the task.
    #[verifier::when_used_as_spec(spec_id)]
    pub fn id(&self) -> (id: usize)
        ensures
            id == self.id(),
    {
        self.0
    }
}

} // verus!
