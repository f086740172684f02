//! Tasks and the envelope in which a worker executes one.

use crate::kind::Key;
use crate::kind::Kind;
use crate::kind::Local;
use crate::kind::Remote;
use crate::suspend::Poll;
use crate::suspend::Script;
use std::task::Context;
use vstd::prelude::*;

verus! {

/// The payload of a task.
pub enum Act<K: Kind> {
    /// A deferred action that has not been invoked.
    Call(K::Call),
    /// A suspendable computation.
    Fut(K::Fut),
}

impl<K: Kind> Act<K> {
    /// Whether the payload may be driven: an action, or a computation that
    /// has not completed.
    pub open spec fn ready(&self) -> bool {
        match self {
            Act::Call(_) => true,
            Act::Fut(fut) => !(K::script(fut) is Spent),
        }
    }
}

/// A payload paired with the identity of the task that carries it.
pub struct Task<K: Kind> {
    /// The identity of the task.
    pub key: Key<K>,
    /// The payload. It is absent only while the task is handed over.
    pub act: Option<Act<K>>,
}

impl<K: Kind> Task<K> {
    /// Whether the task may be executed: its payload is present and may be driven.
    pub open spec fn ready(&self) -> bool {
        self.act matches Some(act) && act.ready()
    }

    /// Whether `self` is what an execution of `task` hands back when the poll
    /// of its computation reports `Pending`: the same task, whose computation
    /// has taken one step of its script.
    pub open spec fn resumes(&self, task: &Task<K>) -> bool {
        &&& self.key == task.key
        &&& self.ready()
        &&& task.act matches Some(Act::Fut(before))
        &&& self.act matches Some(Act::Fut(after))
        &&& crate::suspend::follows(K::script(&before), Poll::Pending, K::script(&after))
    }

    /// Decides what becomes of a task once its payload has been driven with
    /// `outcome`: a computation that reported `Pending` is handed back,
    /// everything else is done.
    pub fn settle(self, outcome: Poll<()>) -> (next: Option<Task<K>>)
        ensures
            next == if outcome is Pending && self.act matches Some(Act::Fut(_)) {
                Some(self)
            } else {
                None
            },
    {
        match outcome {
            Poll::Pending => match self.act {
                Some(Act::Fut(fut)) => Some(Task { key: self.key, act: Some(Act::Fut(fut)) }),
                _ => None,
            },
            Poll::Ready(_) => None,
        }
    }

    /// Drives the task to one decision point, in either domain.
    ///
    /// A deferred action is invoked and the task is done. A computation is
    /// polled once against `cx`; the task is done if it completed, and handed
    /// back if it did not.
    pub fn run(self, cx: &mut Context<'_>) -> (next: Option<Task<K>>)
        requires
            self.ready(),
        ensures
            self.act matches Some(Act::Call(_)) ==> next is None,
            next matches Some(task) ==> task.resumes(&self),
            self.act matches Some(Act::Fut(fut)) ==> match K::script(&fut) {
                Script::Due { pending, output } => (pending == 0 <==> next is None),
                _ => true,
            },
    {
        let Task { key, act } = self;
        match act {
            Some(Act::Call(call)) => {
                K::call(call);
                None
            },
            Some(Act::Fut(mut fut)) => {
                let outcome = K::resume(&mut fut, cx);
                let polled = Task { key, act: Some(Act::Fut(fut)) };
                polled.settle(outcome)
            },
            None => None,
        }
    }
}

/// The envelope of one execution attempt: a task of either domain.
pub enum Work {
    /// A task of the thread-affine domain.
    Local(Task<Local>),
    /// A task of the transferable domain.
    Remote(Task<Remote>),
}

impl Work {
    /// Whether the enclosed task may be executed.
    pub open spec fn ready(&self) -> bool {
        match self {
            Work::Local(task) => task.ready(),
            Work::Remote(task) => task.ready(),
        }
    }

    /// Whether the enclosed task carries a deferred action.
    pub open spec fn is_call(&self) -> bool {
        match self {
            Work::Local(task) => task.act matches Some(Act::Call(_)),
            Work::Remote(task) => task.act matches Some(Act::Call(_)),
        }
    }

    /// What the enclosed computation announces of its coming polls, if the
    /// enclosed task carries a computation.
    pub open spec fn script(&self) -> Option<Script<()>> {
        match self {
            Work::Local(task) => match task.act {
                Some(Act::Fut(fut)) => Some(Local::script(&fut)),
                _ => None,
            },
            Work::Remote(task) => match task.act {
                Some(Act::Fut(fut)) => Some(Remote::script(&fut)),
                _ => None,
            },
        }
    }

    /// Whether `self` is what an execution of `work` hands back: the same task
    /// in the same domain, one step further in its script.
    pub open spec fn resumes(&self, work: &Work) -> bool {
        match (self, work) {
            (Work::Local(after), Work::Local(before)) => after.resumes(before),
            (Work::Remote(after), Work::Remote(before)) => after.resumes(before),
            _ => false,
        }
    }

    /// Drives the enclosed task to one decision point.
    ///
    /// Returns `None` when the task is done: its action was invoked, or its
    /// computation completed. Returns the task when its computation is still
    /// pending; to run it again is then up to whoever wakes it.
    pub fn execute(self, cx: &mut Context<'_>) -> (next: Option<Work>)
        requires
            self.ready(),
        ensures
            self.is_call() ==> next is None,
            next matches Some(work) ==> work.resumes(&self),
            self.script() matches Some(Script::Due { pending, output }) ==> (pending == 0 <==> next
                is None),
    {
        match self {
            Work::Local(task) => match task.run(cx) {
                Some(task) => Some(Work::Local(task)),
                None => None,
            },
            Work::Remote(task) => match task.run(cx) {
                Some(task) => Some(Work::Remote(task)),
                None => None,
            },
        }
    }
}

} // verus!
