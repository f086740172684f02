use fast::{block_on, join, poll, select, Block, Either, Join, JoinExt, Poll, Select, SelectExt, Suspend};
use std::cell::Cell;
use std::rc::Rc;
use std::task::{Context, Waker};

/// Reports `Pending` a given number of times, then its output; counts its polls.
struct After<T> {
    pending: u32,
    output: Option<T>,
    polls: Rc<Cell<u32>>,
}

impl<T> After<T> {
    fn new(pending: u32, output: T) -> Self {
        After { pending, output: Some(output), polls: Rc::new(Cell::new(0)) }
    }

    fn counted(pending: u32, output: T, polls: &Rc<Cell<u32>>) -> Self {
        After { pending, output: Some(output), polls: polls.clone() }
    }
}

impl<T> Suspend for After<T> {
    type Output = T;

    fn poll(&mut self, _cx: &mut Context<'_>) -> Poll<T> {
        self.polls.set(self.polls.get() + 1);
        if self.pending == 0 {
            Poll::Ready(self.output.take().expect("polled after completion"))
        } else {
            self.pending -= 1;
            Poll::Pending
        }
    }
}

#[test]
fn join_of_a_ready_and_a_two_poll_computation() {
    let mut cx = Context::from_waker(Waker::noop());
    let mut both = join(After::new(0, 1), After::new(1, "a"));
    assert_eq!(both.poll(&mut cx), Poll::Pending);
    assert_eq!(both.poll(&mut cx), Poll::Ready((1, "a")));
}

#[test]
fn join_yields_the_same_pair_whichever_side_is_first() {
    let mut cx = Context::from_waker(Waker::noop());

    let mut first_early = Join::new(After::new(1, 'x'), After::new(3, 'y'));
    for _ in 0..3 {
        assert_eq!(first_early.poll(&mut cx), Poll::Pending);
    }
    assert_eq!(first_early.poll(&mut cx), Poll::Ready(('x', 'y')));

    let mut second_early = Join::new(After::new(3, 'x'), After::new(1, 'y'));
    for _ in 0..3 {
        assert_eq!(second_early.poll(&mut cx), Poll::Pending);
    }
    assert_eq!(second_early.poll(&mut cx), Poll::Ready(('x', 'y')));

    let mut together = Join::new(After::new(0, 'x'), After::new(0, 'y'));
    assert_eq!(together.poll(&mut cx), Poll::Ready(('x', 'y')));
}

#[test]
fn join_never_polls_a_side_that_has_completed() {
    let mut cx = Context::from_waker(Waker::noop());
    let first = Rc::new(Cell::new(0));
    let second = Rc::new(Cell::new(0));
    let mut both = After::counted(0, 10, &first).join(After::counted(4, 20, &second));
    for round in 1..=4 {
        assert_eq!(both.poll(&mut cx), Poll::Pending);
        assert_eq!(first.get(), 1);
        assert_eq!(second.get(), round);
    }
    assert_eq!(both.poll(&mut cx), Poll::Ready((10, 20)));
    assert_eq!(first.get(), 1);
    assert_eq!(second.get(), 5);
}

#[test]
fn join_polls_each_running_side_once_per_round() {
    let mut cx = Context::from_waker(Waker::noop());
    let first = Rc::new(Cell::new(0));
    let second = Rc::new(Cell::new(0));
    let mut both = join(After::counted(2, (), &first), After::counted(2, (), &second));
    assert_eq!(both.poll(&mut cx), Poll::Pending);
    assert_eq!((first.get(), second.get()), (1, 1));
    assert_eq!(both.poll(&mut cx), Poll::Pending);
    assert_eq!((first.get(), second.get()), (2, 2));
    assert_eq!(both.poll(&mut cx), Poll::Ready(((), ())));
    assert_eq!((first.get(), second.get()), (3, 3));
}

#[test]
fn select_first_side_ready_at_once_leaves_the_second_unpolled() {
    let mut cx = Context::from_waker(Waker::noop());
    let second = Rc::new(Cell::new(0));
    let mut race = select(After::new(0, "first"), After::counted(5, "second", &second));
    assert_eq!(race.poll(&mut cx), Poll::Ready(Either::First("first")));
    assert_eq!(second.get(), 0);
}

#[test]
fn select_prefers_the_first_side_when_both_are_ready() {
    let mut cx = Context::from_waker(Waker::noop());
    let second = Rc::new(Cell::new(0));
    let mut race = Select::new(After::new(0, 1), After::counted(0, 2, &second));
    assert_eq!(race.poll(&mut cx), Poll::Ready(Either::First(1)));
    assert_eq!(second.get(), 0);

    let mut later = After::new(2, 1).select(After::new(2, 2));
    assert_eq!(later.poll(&mut cx), Poll::Pending);
    assert_eq!(later.poll(&mut cx), Poll::Pending);
    assert_eq!(later.poll(&mut cx), Poll::Ready(Either::First(1)));
}

#[test]
fn select_yields_the_second_side_when_it_is_earlier() {
    let mut cx = Context::from_waker(Waker::noop());
    let first = Rc::new(Cell::new(0));
    let mut race = select(After::counted(3, 'a', &first), After::new(1, 'b'));
    assert_eq!(race.poll(&mut cx), Poll::Pending);
    assert_eq!(race.poll(&mut cx), Poll::Ready(Either::Second('b')));
    assert_eq!(first.get(), 2);
}

#[test]
fn select_polls_both_sides_again_after_a_round_without_a_winner() {
    let mut cx = Context::from_waker(Waker::noop());
    let first = Rc::new(Cell::new(0));
    let second = Rc::new(Cell::new(0));
    let mut race = select(After::counted(9, 0u8, &first), After::counted(9, 0u8, &second));
    for round in 1..=4 {
        assert_eq!(race.poll(&mut cx), Poll::Pending);
        assert_eq!((first.get(), second.get()), (round, round));
    }
}

#[test]
fn block_on_polls_until_the_output_is_there() {
    let polls = Rc::new(Cell::new(0));
    assert_eq!(block_on(After::counted(3, 7, &polls)), 7);
    assert_eq!(polls.get(), 4);
    assert_eq!(block_on(After::new(0, "now")), "now");
    assert_eq!(block_on(join(After::new(2, 1), After::new(0, 2))), (1, 2));
    assert_eq!(block_on(select(After::new(2, 1), After::new(1, 2))), Either::Second(2));
}

#[test]
fn block_polls_its_computation_once_per_call() {
    let polls = Rc::new(Cell::new(0));
    let mut block = Block::new(After::counted(1, 'z', &polls));
    assert_eq!(block.poll(), Poll::Pending);
    assert_eq!(polls.get(), 1);
    assert_eq!(block.poll(), Poll::Ready('z'));
    assert_eq!(polls.get(), 2);
}

#[test]
fn poll_drives_a_computation_one_step() {
    let mut cx = Context::from_waker(Waker::noop());
    let polls = Rc::new(Cell::new(0));
    assert_eq!(poll(&mut cx, After::counted(0, (), &polls)), Poll::Ready(()));
    assert_eq!(polls.get(), 1);
    assert_eq!(poll(&mut cx, After::counted(2, (), &polls)), Poll::Pending);
    assert_eq!(polls.get(), 2);
}

#[test]
fn record_caches_the_output_of_a_completed_side() {
    let mut done = false;
    let mut cache: Option<u8> = None;
    fast::join::record(&mut done, &mut cache, Poll::Pending);
    assert_eq!((done, cache), (false, None));
    fast::join::record(&mut done, &mut cache, Poll::Ready(5));
    assert_eq!((done, cache), (true, Some(5)));
    fast::join::record(&mut done, &mut cache, Poll::Pending);
    assert_eq!((done, cache), (true, Some(5)));
}

#[test]
fn conclude_hands_out_the_pair_once_both_sides_are_done() {
    let mut first = Some(1);
    let mut second: Option<&str> = None;
    assert_eq!(fast::join::conclude(true, false, &mut first, &mut second), Poll::Pending);
    assert_eq!((first, second), (Some(1), None));
    second = Some("a");
    assert_eq!(fast::join::conclude(false, true, &mut first, &mut second), Poll::Pending);
    assert_eq!(fast::join::conclude(false, false, &mut first, &mut second), Poll::Pending);
    assert_eq!((first, second), (Some(1), Some("a")));
    assert_eq!(fast::join::conclude(true, true, &mut first, &mut second), Poll::Ready((1, "a")));
    assert_eq!((first, second), (None, None));
}

#[test]
fn reported_ends_the_race_or_marks_the_side() {
    let mut polled = false;
    assert_eq!(fast::select::reported(Poll::Ready('w'), &mut polled), Some('w'));
    assert!(!polled);
    assert_eq!(fast::select::reported(Poll::<char>::Pending, &mut polled), None);
    assert!(polled);
    assert_eq!(fast::select::reported(Poll::Ready('v'), &mut polled), Some('v'));
    assert!(polled);
}
