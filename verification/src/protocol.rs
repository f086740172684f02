//! The wake/park protocol of a wake object, step by step.
//!
//! A wake object holds a state word and a slot for one parked task. A
//! registration deposits the task in the slot and then tries to move the word
//! from `EMPTY` to `WAITING`; if the word was not `EMPTY`, the registrant may
//! take the task back and run it. A notification moves the word to `NOTIFIED`
//! and, if it found `WAITING`, goes on to withdraw the task and has it
//! scheduled. Each of these is one atomic step, and the steps of one
//! registration and of any number of notifications may interleave in any
//! order; [`lemma_woken_exactly_once`] shows that the task is scheduled once,
//! and [`lemma_handed_out_once`] that the slot gives it to one taker only.

use vstd::prelude::*;

verus! {

/// The state of a wake object in which nothing has happened yet.
pub const EMPTY: u8 = 0;

/// The state of a wake object in which a task is parked.
pub const WAITING: u8 = 1;

/// The state of a wake object that has been notified. It is never left.
pub const NOTIFIED: u8 = 2;

/// The state that a registration leaves behind: it parks from `EMPTY` and
/// changes nothing otherwise.
pub open spec fn parked(state: u8) -> u8 {
    if state == EMPTY {
        WAITING
    } else {
        state
    }
}

/// Whether a registration that finds `state` parks its task.
pub open spec fn parks(state: u8) -> bool {
    state == EMPTY
}

/// Whether a notification that finds `state` has to schedule the parked task.
pub open spec fn wakes(state: u8) -> bool {
    state == WAITING
}

/// The state that a compare-and-exchange found, whether or not the exchange
/// took place.
pub open spec fn found(seen: Result<u8, u8>) -> u8 {
    match seen {
        Ok(state) => state,
        Err(state) => state,
    }
}

/// Whether `seen` is what a compare-and-exchange from `EMPTY` can return: `Ok`
/// with the state it found if that was `EMPTY`, and `Err` with it otherwise.
pub open spec fn exchanged(seen: Result<u8, u8>) -> bool {
    seen is Ok <==> found(seen) == EMPTY
}

/// Whether a registration parked its task, given what its compare-and-exchange
/// from `EMPTY` to `WAITING` returned: it did if the exchange took place,
/// which is when it found `EMPTY`.
pub fn registered(seen: Result<u8, u8>) -> (parked: bool)
    ensures
        parked == (seen is Ok),
        exchanged(seen) ==> parked == parks(found(seen)),
{
    seen.is_ok()
}

/// Whether a notification has to schedule the parked task, given the state
/// that its swap to `NOTIFIED` found.
pub fn must_wake(found: u8) -> (wake: bool)
    ensures
        wake == wakes(found),
{
    found == WAITING
}

/// One atomic step on a wake object.
pub enum Step {
    /// A registration stores its task in the slot.
    Deposit,
    /// A registration tries to move the state from `EMPTY` to `WAITING`.
    Park,
    /// A notification moves the state to `NOTIFIED`; if it found `WAITING`,
    /// it owes the parked task a withdrawal.
    Signal,
    /// A notification that found `WAITING` withdraws the task from the slot
    /// to schedule it.
    Withdraw,
    /// A registrant that was told that its task is not parked takes the task
    /// back from the slot.
    Reclaim,
}

/// A wake object together with a count of what has happened to its task.
pub struct Ledger {
    /// The state word.
    pub state: u8,
    /// Whether the slot holds a task.
    pub deposited: bool,
    /// The registrations that were told that their task is not parked, so
    /// that the registrant runs the task itself.
    pub declined: nat,
    /// The notifications that found `WAITING` and have yet to withdraw.
    pub owed: nat,
    /// The notifications that withdrew a task and scheduled it.
    pub woken: nat,
    /// The tasks that a registrant took back from the slot.
    pub reclaimed: nat,
    /// The takers, notifications or registrants, that found the slot empty.
    pub missed: nat,
}

/// The ledger of a fresh wake object.
pub open spec fn fresh() -> Ledger {
    Ledger {
        state: EMPTY,
        deposited: false,
        declined: 0,
        owed: 0,
        woken: 0,
        reclaimed: 0,
        missed: 0,
    }
}

/// The ledger after one more step.
pub open spec fn step(ledger: Ledger, step: Step) -> Ledger {
    match step {
        Step::Deposit => Ledger { deposited: true, ..ledger },
        Step::Park => Ledger {
            state: parked(ledger.state),
            declined: if parks(ledger.state) {
                ledger.declined
            } else {
                ledger.declined + 1
            },
            ..ledger
        },
        Step::Signal => Ledger {
            state: NOTIFIED,
            owed: if wakes(ledger.state) {
                ledger.owed + 1
            } else {
                ledger.owed
            },
            ..ledger
        },
        Step::Withdraw => if ledger.deposited {
            Ledger {
                deposited: false,
                owed: (ledger.owed - 1) as nat,
                woken: ledger.woken + 1,
                ..ledger
            }
        } else {
            Ledger { owed: (ledger.owed - 1) as nat, missed: ledger.missed + 1, ..ledger }
        },
        Step::Reclaim => if ledger.deposited {
            Ledger { deposited: false, reclaimed: ledger.reclaimed + 1, ..ledger }
        } else {
            Ledger { missed: ledger.missed + 1, ..ledger }
        },
    }
}

/// The ledger of a fresh wake object after the given steps, in their order.
pub open spec fn run(steps: Seq<Step>) -> Ledger
    decreases steps.len(),
{
    if steps.len() == 0 {
        fresh()
    } else {
        step(run(steps.drop_last()), steps.last())
    }
}

/// Whether one of the steps is the given one.
pub open spec fn occurs(steps: Seq<Step>, step: Step) -> bool
    decreases steps.len(),
{
    steps.len() > 0 && (steps.last() == step || occurs(steps.drop_last(), step))
}

/// Whether the steps are those of at most one registration and of any number
/// of notifications. The registration deposits its task once and then tries
/// to park once; if it is told that the task is not parked, the registrant
/// may then take the task back, once. A notification withdraws after it found
/// `WAITING`, and only then.
pub open spec fn one_registration(steps: Seq<Step>) -> bool
    decreases steps.len(),
{
    steps.len() > 0 ==> {
        let before = steps.drop_last();
        &&& one_registration(before)
        &&& steps.last() is Deposit ==> !occurs(before, Step::Deposit)
        &&& steps.last() is Park ==> occurs(before, Step::Deposit) && !occurs(before, Step::Park)
        &&& steps.last() is Withdraw ==> run(before).owed > 0
        &&& steps.last() is Reclaim ==> run(before).declined == 1 && !occurs(before, Step::Reclaim)
    }
}

/// What holds of the ledger after the steps of at most one registration.
spec fn accounted(steps: Seq<Step>) -> bool {
    let ledger = run(steps);
    &&& ledger.state == EMPTY || ledger.state == WAITING || ledger.state == NOTIFIED
    &&& ledger.missed == 0
    &&& ledger.state == EMPTY ==> !occurs(steps, Step::Park) && !occurs(steps, Step::Signal)
    &&& ledger.state == WAITING ==> occurs(steps, Step::Park) && !occurs(steps, Step::Signal)
        && ledger.deposited
    &&& ledger.state == NOTIFIED ==> occurs(steps, Step::Signal)
    &&& ledger.state != NOTIFIED ==> ledger.owed + ledger.woken + ledger.declined == 0
    &&& ledger.state == NOTIFIED ==> ledger.owed + ledger.woken + ledger.declined == if occurs(
        steps,
        Step::Park,
    ) {
        1nat
    } else {
        0nat
    }
    &&& ledger.owed > 0 ==> ledger.deposited
    &&& !occurs(steps, Step::Park) ==> ledger.deposited == occurs(steps, Step::Deposit)
    &&& occurs(steps, Step::Park) ==> occurs(steps, Step::Deposit)
    &&& ledger.declined == 1 ==> ledger.deposited == !occurs(steps, Step::Reclaim)
    &&& ledger.reclaimed == if occurs(steps, Step::Reclaim) {
        1nat
    } else {
        0nat
    }
    &&& occurs(steps, Step::Reclaim) ==> ledger.declined == 1
}

/// The ledger stays accounted for through every step of at most one
/// registration and any number of notifications.
proof fn lemma_accounted(steps: Seq<Step>)
    requires
        one_registration(steps),
    ensures
        accounted(steps),
    decreases steps.len(),
{
    if steps.len() > 0 {
        lemma_accounted(steps.drop_last());
    }
}

/// However the steps of one registration and of one or more notifications
/// interleave, the task is scheduled exactly once: either one notification
/// finds `WAITING`, withdraws the task and schedules it, or the registration
/// is told that the task is not parked and the registrant runs it. No
/// notification finds the slot empty.
pub proof fn lemma_woken_exactly_once(steps: Seq<Step>)
    requires
        one_registration(steps),
        occurs(steps, Step::Park),
        occurs(steps, Step::Signal),
    ensures
        run(steps).owed + run(steps).woken + run(steps).declined == 1,
        run(steps).owed == 0 ==> run(steps).woken + run(steps).declined == 1,
        run(steps).missed == 0,
        run(steps).state == NOTIFIED,
{
    lemma_accounted(steps);
}

/// The slot gives the task of one registration to one taker only: to the
/// notification that wakes it, or to the registrant that takes it back after
/// it was told that the task is not parked. Neither finds the slot empty.
pub proof fn lemma_handed_out_once(steps: Seq<Step>)
    requires
        one_registration(steps),
    ensures
        run(steps).woken + run(steps).reclaimed <= 1,
        run(steps).reclaimed <= run(steps).declined,
        run(steps).missed == 0,
        occurs(steps, Step::Reclaim) ==> run(steps).reclaimed == 1 && run(steps).woken == 0,
{
    lemma_accounted(steps);
}

/// A notification of a wake object that has been notified changes nothing,
/// and owes no withdrawal.
pub proof fn lemma_notified_is_final(ledger: Ledger)
    requires
        ledger.state == NOTIFIED,
    ensures
        step(ledger, Step::Signal) == ledger,
{
}

} // verus!
