//! The poll protocol of suspendable computations.

use std::task::Context;
use std::task::Waker;
use vstd::prelude::*;

verus! {

/// `std::task::Context`: the executing context that a computation is polled
/// against. It carries the wake handle that is active during the poll; what
/// it holds is not visible to proofs.
#[verifier::external_type_specification]
#[verifier::external_body]
pub struct ExContext<'a>(Context<'a>);

/// `std::task::Waker`: a wake handle. What it holds is not visible to proofs.
#[verifier::external_type_specification]
#[verifier::external_body]
pub struct ExWaker(Waker);

/// What one poll of a suspendable computation reports.
#[derive(Debug, PartialEq, Eq)]
pub enum Poll<T> {
    /// The computation has completed with this value.
    Ready(T),
    /// The computation is not done yet.
    Pending,
}

/// What is known ahead of the polls of a suspendable computation.
pub enum Script<T> {
    /// Nothing is promised: every poll may report either outcome.
    Free,
    /// The next `pending` polls report `Pending`, and the poll after them
    /// completes with `output`.
    Due { pending: nat, output: T },
    /// The computation has completed and must not be polled again.
    Spent,
}

/// Whether a poll that finds the script `before`, reports `outcome` and leaves
/// the script `after` keeps to the poll protocol.
///
/// A computation that stays pending can be polled again. A computation that is
/// due in `pending` polls reports `Pending` and is then due one poll earlier,
/// or, with none left, completes with the announced output and is spent.
pub open spec fn follows<T>(before: Script<T>, outcome: Poll<T>, after: Script<T>) -> bool {
    &&& outcome is Pending ==> !(after is Spent)
    &&& before matches Script::Due { pending, output } ==> {
        if pending == 0 {
            outcome == Poll::Ready(output) && after is Spent
        } else {
            outcome is Pending && after == (Script::Due { pending: (pending - 1) as nat, output })
        }
    }
}

/// Whether `outcomes` are what consecutive polls of one computation may
/// report, `scripts` being what the computation announces before the first
/// poll, between two polls and after the last.
pub open spec fn polled<T>(scripts: Seq<Script<T>>, outcomes: Seq<Poll<T>>) -> bool {
    &&& scripts.len() == outcomes.len() + 1
    &&& forall|i: int|
        0 <= i < outcomes.len() ==> follows(scripts[i], #[trigger] outcomes[i], scripts[i + 1])
}

/// A computation that is due in `pending` polls reports `Pending` on each of
/// them and completes with `output` on the next, after which it is spent.
pub proof fn lemma_due_completes<T>(
    scripts: Seq<Script<T>>,
    outcomes: Seq<Poll<T>>,
    pending: nat,
    output: T,
)
    requires
        polled(scripts, outcomes),
        scripts[0] == (Script::Due { pending, output }),
        outcomes.len() == pending + 1,
    ensures
        forall|i: int| 0 <= i < pending ==> #[trigger] outcomes[i] is Pending,
        outcomes[pending as int] == Poll::Ready(output),
        scripts[pending as int + 1] is Spent,
{
    assert forall|i: int| 0 <= i <= pending implies #[trigger] scripts[i] == (Script::Due {
        pending: (pending - i) as nat,
        output,
    }) by {
        lemma_due_counts_down(scripts, outcomes, pending, output, i);
    }
}

/// While a computation that is due in `pending` polls has polls left, each
/// poll brings it one poll closer to its completion.
proof fn lemma_due_counts_down<T>(
    scripts: Seq<Script<T>>,
    outcomes: Seq<Poll<T>>,
    pending: nat,
    output: T,
    polls: int,
)
    requires
        polled(scripts, outcomes),
        scripts[0] == (Script::Due { pending, output }),
        0 <= polls <= pending,
        pending < outcomes.len(),
    ensures
        scripts[polls] == (Script::Due { pending: (pending - polls) as nat, output }),
    decreases polls,
{
    if polls > 0 {
        lemma_due_counts_down(scripts, outcomes, pending, output, polls - 1);
        assert(follows(scripts[polls - 1], outcomes[polls - 1], scripts[polls]));
    }
}

/// A suspendable computation: it is polled until it reports its output.
pub trait Suspend {
    /// The value the computation completes with.
    type Output;

    /// What the computation announces of its coming polls. A computation that
    /// announces nothing is `Free`.
    open spec fn script(&self) -> Script<Self::Output> {
        Script::Free
    }

    /// Drives the computation to its next suspension point or to completion.
    fn poll(&mut self, cx: &mut Context<'_>) -> (outcome: Poll<Self::Output>)
        requires
            !(old(self).script() is Spent),
        ensures
            follows(old(self).script(), outcome, final(self).script()),
    ;
}

} // verus!
