//! The combinator that completes once both of two computations have.

use crate::suspend::follows;
use crate::suspend::Poll;
use crate::suspend::Script;
use crate::suspend::Suspend;
use std::task::Context;
use vstd::prelude::*;

verus! {

/// The script of one side of a [`Join`]: that of its computation while the
/// side is running, the cached result once the side is done, and `Spent` once
/// the result has been handed out.
pub open spec fn side<T>(done: bool, result: Option<T>, running: Script<T>) -> Script<T> {
    if !done {
        running
    } else {
        match result {
            Some(output) => Script::Due { pending: 0, output },
            None => Script::Spent,
        }
    }
}

/// The script of two computations that are polled side by side until both
/// have completed: due when the later of the two is, with both outputs.
pub open spec fn both<T, U>(first: Script<T>, second: Script<U>) -> Script<(T, U)> {
    match (first, second) {
        (Script::Spent, _) => Script::Spent,
        (_, Script::Spent) => Script::Spent,
        (Script::Due { pending: p, output: a }, Script::Due { pending: q, output: b }) => Script::Due {
            pending: if p >= q {
                p
            } else {
                q
            },
            output: (a, b),
        },
        _ => Script::Free,
    }
}

/// Whether one poll of a combinator takes a side from being `done` with the
/// cached `result` and the computation `running` to `done_after`,
/// `result_after` and `running_after`, where `result_after` is the cache
/// before anything is handed out.
///
/// A side that is done is left alone. A side that is not is polled once, and
/// is done with the output in the cache if the poll reported one.
pub open spec fn side_polled<F: Suspend>(
    done: bool,
    result: Option<F::Output>,
    running: F,
    done_after: bool,
    result_after: Option<F::Output>,
    running_after: F,
) -> bool {
    if done {
        done_after && result_after == result && running_after == running
    } else if done_after {
        result_after matches Some(output) && follows(
            running.script(),
            Poll::Ready(output),
            running_after.script(),
        )
    } else {
        result_after == result && follows(running.script(), Poll::Pending, running_after.script())
    }
}

/// Records what the poll of one side reported: a side that completed is done,
/// with its output in the cache; a side that is pending stays as it was.
pub fn record<T>(done: &mut bool, cache: &mut Option<T>, outcome: Poll<T>)
    ensures
        match outcome {
            Poll::Ready(output) => *final(done) && *final(cache) == Some(output),
            Poll::Pending => *final(done) == *old(done) && *final(cache) == *old(cache),
        },
{
    match outcome {
        Poll::Ready(output) => {
            *done = true;
            *cache = Some(output);
        },
        Poll::Pending => {},
    }
}

/// Hands out both outputs once both sides are done, which empties the caches;
/// reports `Pending` and leaves the caches alone before that.
pub fn conclude<T, U>(
    first_done: bool,
    second_done: bool,
    first: &mut Option<T>,
    second: &mut Option<U>,
) -> (outcome: Poll<(T, U)>)
    requires
        first_done && second_done ==> *old(first) is Some && *old(second) is Some,
    ensures
        if first_done && second_done {
            &&& outcome == Poll::Ready((old(first)->0, old(second)->0))
            &&& *final(first) is None
            &&& *final(second) is None
        } else {
            &&& outcome is Pending
            &&& *final(first) == *old(first)
            &&& *final(second) == *old(second)
        },
{
    if first_done && second_done {
        let first = first.take().unwrap();
        let second = second.take().unwrap();
        Poll::Ready((first, second))
    } else {
        Poll::Pending
    }
}

/// Two computations driven side by side; completes with both outputs.
pub struct Join<T: Suspend, U: Suspend> {
    first: Box<T>,
    second: Box<U>,
    first_done: bool,
    second_done: bool,
    first_result: Option<T::Output>,
    second_result: Option<U::Output>,
}

impl<T: Suspend, U: Suspend> Join<T, U> {
    /// The first computation.
    pub closed spec fn first(&self) -> T {
        *self.first
    }

    /// The second computation.
    pub closed spec fn second(&self) -> U {
        *self.second
    }

    /// Whether the first computation has completed.
    pub closed spec fn first_done(&self) -> bool {
        self.first_done
    }

    /// Whether the second computation has completed.
    pub closed spec fn second_done(&self) -> bool {
        self.second_done
    }

    /// The output of the first computation, from its completion until the
    /// combinator hands it out.
    pub closed spec fn first_result(&self) -> Option<T::Output> {
        self.first_result
    }

    /// The output of the second computation, from its completion until the
    /// combinator hands it out.
    pub closed spec fn second_result(&self) -> Option<U::Output> {
        self.second_result
    }

    /// The script of the first side.
    pub open spec fn first_side(&self) -> Script<T::Output> {
        side(self.first_done(), self.first_result(), self.first().script())
    }

    /// The script of the second side.
    pub open spec fn second_side(&self) -> Script<U::Output> {
        side(self.second_done(), self.second_result(), self.second().script())
    }

    /// Whether `self` is the join of `first` and `second` before its first
    /// poll: both sides are running and nothing is cached.
    pub open spec fn fresh(&self, first: T, second: U) -> bool {
        &&& self.first() == first
        &&& self.second() == second
        &&& !self.first_done()
        &&& !self.second_done()
        &&& self.first_result() is None
        &&& self.second_result() is None
    }

    /// Joins two computations, neither of which has been polled by the
    /// combinator yet.
    pub fn new(first: T, second: U) -> (join: Self)
        ensures
            join.fresh(first, second),
    {
        Join {
            first: Box::new(first),
            second: Box::new(second),
            first_done: false,
            second_done: false,
            first_result: None,
            second_result: None,
        }
    }
}

impl<T: Suspend, U: Suspend> Suspend for Join<T, U> {
    type Output = (T::Output, U::Output);

    open spec fn script(&self) -> Script<Self::Output> {
        both(self.first_side(), self.second_side())
    }

    /// Polls each side that has not completed, the first before the second,
    /// and completes once both have.
    fn poll(&mut self, cx: &mut Context<'_>) -> (outcome: Poll<Self::Output>)
        ensures
            outcome is Ready <==> final(self).first_done() && final(self).second_done(),
            outcome is Ready ==> final(self).first_result() is None && final(self).second_result()
                is None,
            side_polled(
                old(self).first_done(),
                old(self).first_result(),
                old(self).first(),
                final(self).first_done(),
                match outcome {
                    Poll::Ready((first, _)) => Some(first),
                    Poll::Pending => final(self).first_result(),
                },
                final(self).first(),
            ),
            side_polled(
                old(self).second_done(),
                old(self).second_result(),
                old(self).second(),
                final(self).second_done(),
                match outcome {
                    Poll::Ready((_, second)) => Some(second),
                    Poll::Pending => final(self).second_result(),
                },
                final(self).second(),
            ),
    {
        if !self.first_done {
            let outcome = self.first.poll(cx);
            record(&mut self.first_done, &mut self.first_result, outcome);
        }
        if !self.second_done {
            let outcome = self.second.poll(cx);
            record(&mut self.second_done, &mut self.second_result, outcome);
        }
        conclude(
            self.first_done,
            self.second_done,
            &mut self.first_result,
            &mut self.second_result,
        )
    }
}

/// A join of two computations that are due completes when the later of the
/// two does, with the output of the first and the output of the second:
/// which side completes first makes no difference to what comes out.
pub proof fn lemma_join_yields_both<T: Suspend, U: Suspend>(
    join: Join<T, U>,
    p: nat,
    a: T::Output,
    q: nat,
    b: U::Output,
)
    requires
        join.fresh(join.first(), join.second()),
        join.first().script() == (Script::Due { pending: p, output: a }),
        join.second().script() == (Script::Due { pending: q, output: b }),
    ensures
        join.script() == (Script::Due {
            pending: if p >= q {
                p
            } else {
                q
            },
            output: (a, b),
        }),
{
}

/// A side that completed keeps its output until the other side has completed
/// too: with the first side done and the second due, the join is due when the
/// second is, and hands out the cached output beside the second's.
pub proof fn lemma_join_keeps_output<T: Suspend, U: Suspend>(
    join: Join<T, U>,
    a: T::Output,
    q: nat,
    b: U::Output,
)
    requires
        join.first_done(),
        join.first_result() == Some(a),
        !join.second_done(),
        join.second().script() == (Script::Due { pending: q, output: b }),
    ensures
        join.script() == (Script::Due { pending: q, output: (a, b) }),
{
}

/// Joins two computations.
pub fn join<T: Suspend, U: Suspend>(first: T, second: U) -> (join: Join<T, U>)
    ensures
        join.fresh(first, second),
{
    Join::new(first, second)
}

/// Joining as a method of the first computation.
pub trait JoinExt: Suspend + Sized {
    /// Joins `self` with `other`.
    fn join<U: Suspend>(self, other: U) -> (join: Join<Self, U>)
        ensures
            join.fresh(self, other),
    {
        Join::new(self, other)
    }
}

impl<F: Suspend> JoinExt for F {
}

} // verus!
