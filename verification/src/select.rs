//! The combinator that completes with whichever of two computations does first.

use crate::suspend::follows;
use crate::suspend::Poll;
use crate::suspend::Script;
use crate::suspend::Suspend;
use std::task::Context;
use vstd::prelude::*;

verus! {

/// The output of the side that completed first.
#[derive(Debug, PartialEq, Eq)]
pub enum Either<T, U> {
    /// The first computation completed with this output.
    First(T),
    /// The second computation completed with this output.
    Second(U),
}

/// The number of polls of the combinator that a side sits out: one if the side
/// is marked as polled, none otherwise.
pub open spec fn wait(polled: bool) -> nat {
    if polled {
        1
    } else {
        0
    }
}

/// The script of two computations that race, the first being polled before
/// the second in every round and a side marked as polled sitting out one round.
///
/// With both sides due, the side that is due earlier wins, and the first side
/// wins a tie. A first side that is due at once wins whatever the second does.
pub open spec fn either<T, U>(
    first: Script<T>,
    polled_first: bool,
    second: Script<U>,
    polled_second: bool,
) -> Script<Either<T, U>> {
    match (first, second) {
        (Script::Spent, _) => Script::Spent,
        (_, Script::Spent) => Script::Spent,
        (Script::Due { pending: p, output: a }, Script::Due { pending: q, output: b }) => {
            if p + wait(polled_first) <= q + wait(polled_second) {
                Script::Due { pending: p + wait(polled_first), output: Either::First(a) }
            } else {
                Script::Due { pending: q + wait(polled_second), output: Either::Second(b) }
            }
        },
        (Script::Due { pending: p, output: a }, Script::Free) => {
            if p + wait(polled_first) == 0 {
                Script::Due { pending: 0, output: Either::First(a) }
            } else {
                Script::Free
            }
        },
        _ => Script::Free,
    }
}

/// What the race makes of the poll of one side: the output if the side
/// completed, which ends the race; a side that is pending is marked as polled.
pub fn reported<T>(outcome: Poll<T>, polled: &mut bool) -> (won: Option<T>)
    ensures
        match outcome {
            Poll::Ready(output) => won == Some(output) && *final(polled) == *old(polled),
            Poll::Pending => won is None && *final(polled),
        },
{
    match outcome {
        Poll::Ready(output) => Some(output),
        Poll::Pending => {
            *polled = true;
            None
        },
    }
}

/// Two computations that race; completes with the output of the winner and
/// abandons the other.
pub struct Select<T, U> {
    first: Box<T>,
    second: Box<U>,
    polled_first: bool,
    polled_second: bool,
}

impl<T: Suspend, U: Suspend> Select<T, U> {
    /// The first computation.
    pub closed spec fn first(&self) -> T {
        *self.first
    }

    /// The second computation.
    pub closed spec fn second(&self) -> U {
        *self.second
    }

    /// Whether the first computation has reported `Pending` since both marks
    /// were last cleared.
    pub closed spec fn polled_first(&self) -> bool {
        self.polled_first
    }

    /// Whether the second computation has reported `Pending` since both marks
    /// were last cleared.
    pub closed spec fn polled_second(&self) -> bool {
        self.polled_second
    }

    /// Whether `self` is the race of `first` and `second` before its first
    /// poll: neither side is marked as polled.
    pub open spec fn fresh(&self, first: T, second: U) -> bool {
        &&& self.first() == first
        &&& self.second() == second
        &&& !self.polled_first()
        &&& !self.polled_second()
    }

    /// Races two computations, neither of which is marked as polled.
    pub fn new(first: T, second: U) -> (select: Self)
        ensures
            select.fresh(first, second),
    {
        Select { first: Box::new(first), second: Box::new(second), polled_first: false, polled_second: false }
    }
}

impl<T: Suspend, U: Suspend> Suspend for Select<T, U> {
    type Output = Either<T::Output, U::Output>;

    open spec fn script(&self) -> Script<Self::Output> {
        either(
            self.first().script(),
            self.polled_first(),
            self.second().script(),
            self.polled_second(),
        )
    }

    /// Polls each side that is not marked as polled, the first before the
    /// second, and completes with the first output that a side reports. A
    /// round in which no side completes clears both marks, so that the next
    /// round polls both sides again.
    fn poll(&mut self, cx: &mut Context<'_>) -> (outcome: Poll<Self::Output>)
        ensures
            outcome is Pending ==> !final(self).polled_first() && !final(self).polled_second(),
            if old(self).polled_first() {
                final(self).first() == old(self).first()
            } else {
                follows(
                    old(self).first().script(),
                    match outcome {
                        Poll::Ready(Either::First(output)) => Poll::Ready(output),
                        _ => Poll::Pending,
                    },
                    final(self).first().script(),
                )
            },
            if old(self).polled_second() || outcome matches Poll::Ready(Either::First(_)) {
                final(self).second() == old(self).second()
            } else {
                follows(
                    old(self).second().script(),
                    match outcome {
                        Poll::Ready(Either::Second(output)) => Poll::Ready(output),
                        _ => Poll::Pending,
                    },
                    final(self).second().script(),
                )
            },
    {
        if !self.polled_first {
            let outcome = self.first.poll(cx);
            if let Some(output) = reported(outcome, &mut self.polled_first) {
                return Poll::Ready(Either::First(output));
            }
        }
        if !self.polled_second {
            let outcome = self.second.poll(cx);
            if let Some(output) = reported(outcome, &mut self.polled_second) {
                return Poll::Ready(Either::Second(output));
            }
        }
        self.polled_first = false;
        self.polled_second = false;
        Poll::Pending
    }
}

/// A first side that completes on its first poll wins, whatever the second
/// side would do; also when the second side would complete on its first poll.
pub proof fn lemma_select_first_at_once<T: Suspend, U: Suspend>(select: Select<T, U>, a: T::Output)
    requires
        select.fresh(select.first(), select.second()),
        select.first().script() == (Script::Due { pending: 0, output: a }),
        !(select.second().script() is Spent),
    ensures
        select.script() == (Script::Due { pending: 0, output: Either::<T::Output, U::Output>::First(a) }),
{
}

/// Of two sides that are due and not marked as polled, the one that is due
/// earlier wins at the poll at which it completes, and the first side wins
/// when both complete at the same poll.
pub proof fn lemma_select_earlier_side<T: Suspend, U: Suspend>(
    select: Select<T, U>,
    p: nat,
    a: T::Output,
    q: nat,
    b: U::Output,
)
    requires
        select.fresh(select.first(), select.second()),
        select.first().script() == (Script::Due { pending: p, output: a }),
        select.second().script() == (Script::Due { pending: q, output: b }),
    ensures
        p <= q ==> select.script() == (Script::Due {
            pending: p,
            output: Either::<T::Output, U::Output>::First(a),
        }),
        q < p ==> select.script() == (Script::Due {
            pending: q,
            output: Either::<T::Output, U::Output>::Second(b),
        }),
{
}

/// Races two computations.
pub fn select<T: Suspend, U: Suspend>(first: T, second: U) -> (select: Select<T, U>)
    ensures
        select.fresh(first, second),
{
    Select::new(first, second)
}

/// Racing as a method of the first computation.
pub trait SelectExt: Suspend + Sized {
    /// Races `self` against `other`.
    fn select<U: Suspend>(self, other: U) -> (select: Select<Self, U>)
        ensures
            select.fresh(self, other),
    {
        Select::new(self, other)
    }
}

impl<F: Suspend> SelectExt for F {
}

} // verus!
