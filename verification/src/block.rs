//! The blocking driver: polling a computation on the spot until it completes.

use crate::suspend::follows;
use crate::suspend::Poll;
use crate::suspend::Script;
use crate::suspend::Suspend;
use std::task::Context;
use std::task::Waker;
use vstd::prelude::*;

verus! {

/// `std::task::Waker::noop`: a reference to the wake handle whose wake
/// operation does nothing. Nothing is claimed of the handle.
pub assume_specification[ Waker::noop ]() -> &'static Waker;

/// `std::task::Context::from_waker`: the context that carries the given wake
/// handle. Nothing is claimed of the context.
pub assume_specification<'a>[ Context::<'a>::from_waker ](waker: &'a Waker) -> Context<'a>;

/// A computation together with a context whose wake handle is inert.
pub struct Block<F> {
    future: Box<F>,
    context: Context<'static>,
}

impl<F: Suspend> Block<F> {
    /// The computation that is driven.
    pub closed spec fn future(&self) -> F {
        *self.future
    }

    /// Prepares `future` to be polled on the spot.
    pub fn new(future: F) -> (block: Self)
        ensures
            block.future() == future,
    {
        Block { future: Box::new(future), context: Context::from_waker(Waker::noop()) }
    }

    /// Polls the computation once against the inert wake handle.
    pub fn poll(&mut self) -> (outcome: Poll<F::Output>)
        requires
            !(old(self).future().script() is Spent),
        ensures
            follows(old(self).future().script(), outcome, final(self).future().script()),
    {
        self.future.poll(&mut self.context)
    }
}

/// Polls `future` in a busy loop until it completes, and returns its output.
///
/// The loop yields to nobody, so it ends only for a computation that is due
/// after finitely many polls: one whose suspension points resolve without an
/// event from outside.
pub fn block_on<F: Suspend>(future: F) -> (output: F::Output)
    requires
        future.script() is Due,
    ensures
        output == future.script()->output,
{
    let mut block = Block::new(future);
    loop
        invariant
            block.future().script() is Due,
            block.future().script()->output == future.script()->output,
        decreases block.future().script()->pending,
    {
        match block.poll() {
            Poll::Ready(output) => {
                return output;
            },
            Poll::Pending => {},
        }
    }
}

/// Polls `fut` once against `cx` and drops it.
pub fn poll<F: Suspend<Output = ()>>(cx: &mut Context<'_>, fut: F) -> (outcome: Poll<()>)
    requires
        !(fut.script() is Spent),
    ensures
        fut.script() matches Script::Due { pending, output } ==> (outcome is Ready <==> pending
            == 0),
{
    let mut fut = fut;
    fut.poll(cx)
}

} // verus!
