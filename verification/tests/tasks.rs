use fast::{Act, Key, Kind, Local, LocalCall, LocalFut, Notify, Poll, Remote, RemoteCall, RemoteFut, Suspend, Task, Work};
use std::sync::atomic::{AtomicUsize, Ordering};
use std::sync::Arc;
use std::task::{Context, Waker};

struct Bump(Arc<AtomicUsize>);

impl LocalCall for Bump {
    fn call(self: Box<Self>) {
        self.0.fetch_add(1, Ordering::SeqCst);
    }
}

impl RemoteCall for Bump {
    fn call(self: Box<Self>) {
        self.0.fetch_add(1, Ordering::SeqCst);
    }
}

struct Yields {
    pending: u32,
    polls: Arc<AtomicUsize>,
}

impl Suspend for Yields {
    type Output = ();

    fn poll(&mut self, _cx: &mut Context<'_>) -> Poll<()> {
        self.polls.fetch_add(1, Ordering::SeqCst);
        if self.pending == 0 {
            Poll::Ready(())
        } else {
            self.pending -= 1;
            Poll::Pending
        }
    }
}

fn local_fut(pending: u32, polls: &Arc<AtomicUsize>) -> Box<dyn LocalFut> {
    Box::new(Yields { pending, polls: polls.clone() })
}

fn remote_fut(pending: u32, polls: &Arc<AtomicUsize>) -> Box<dyn RemoteFut> {
    Box::new(Yields { pending, polls: polls.clone() })
}

fn local_key(work: &Work) -> Option<usize> {
    match work {
        Work::Local(task) => Some(task.key.id()),
        Work::Remote(_) => None,
    }
}

#[test]
fn remote_call_task_runs_its_action_once_and_is_done() {
    let counter = Arc::new(AtomicUsize::new(0));
    let call: Box<dyn RemoteCall> = Box::new(Bump(counter.clone()));
    let work = Work::Remote(Task { key: Key::new(1), act: Some(Act::Call(call)) });
    let mut cx = Context::from_waker(Waker::noop());
    assert!(work.execute(&mut cx).is_none());
    assert_eq!(counter.load(Ordering::SeqCst), 1);
}

#[test]
fn local_call_task_runs_its_action_once_and_is_done() {
    let counter = Arc::new(AtomicUsize::new(0));
    let call: Box<dyn LocalCall> = Box::new(Bump(counter.clone()));
    let work = Work::Local(Task { key: Key::new(2), act: Some(Act::Call(call)) });
    let mut cx = Context::from_waker(Waker::noop());
    assert!(work.execute(&mut cx).is_none());
    assert_eq!(counter.load(Ordering::SeqCst), 1);
}

#[test]
fn local_fut_task_is_handed_back_while_pending_and_done_after_its_wake() {
    let polls = Arc::new(AtomicUsize::new(0));
    let work = Work::Local(Task { key: Key::new(7), act: Some(Act::Fut(local_fut(1, &polls))) });
    let mut cx = Context::from_waker(Waker::noop());

    let pending = work.execute(&mut cx).expect("the computation is not done after one poll");
    assert_eq!(local_key(&pending), Some(7));
    assert_eq!(polls.load(Ordering::SeqCst), 1);

    let notify: Notify<Local> = Notify::new(Key::new(7));
    let task = match pending {
        Work::Local(task) => task,
        Work::Remote(_) => unreachable!(),
    };
    assert!(notify.register(Box::new(task)));
    let woken = notify.notify().expect("the parked task is woken");
    assert_eq!(woken.key.id(), 7);

    assert!(Work::Local(woken).execute(&mut cx).is_none());
    assert_eq!(polls.load(Ordering::SeqCst), 2);
}

#[test]
fn fut_task_whose_poll_is_ready_is_done() {
    let polls = Arc::new(AtomicUsize::new(0));
    let work = Work::Remote(Task { key: Key::new(3), act: Some(Act::Fut(remote_fut(0, &polls))) });
    let mut cx = Context::from_waker(Waker::noop());
    assert!(work.execute(&mut cx).is_none());
    assert_eq!(polls.load(Ordering::SeqCst), 1);
}

#[test]
fn fut_task_is_polled_once_per_execution() {
    let polls = Arc::new(AtomicUsize::new(0));
    let mut work = Work::Remote(Task { key: Key::new(4), act: Some(Act::Fut(remote_fut(3, &polls))) });
    let mut cx = Context::from_waker(Waker::noop());
    for round in 1..=3 {
        work = work.execute(&mut cx).expect("still pending");
        assert!(matches!(&work, Work::Remote(task) if task.key.id() == 4));
        assert_eq!(polls.load(Ordering::SeqCst), round);
    }
    assert!(work.execute(&mut cx).is_none());
    assert_eq!(polls.load(Ordering::SeqCst), 4);
}

#[test]
fn settle_hands_back_only_a_pending_computation() {
    let polls = Arc::new(AtomicUsize::new(0));
    let counter = Arc::new(AtomicUsize::new(0));

    let fut: Task<Local> = Task { key: Key::new(5), act: Some(Act::Fut(local_fut(2, &polls))) };
    let back = fut.settle(Poll::Pending).expect("a pending computation is handed back");
    assert_eq!(back.key.id(), 5);
    assert!(matches!(back.act, Some(Act::Fut(_))));
    assert!(back.settle(Poll::Ready(())).is_none());

    let call: Box<dyn LocalCall> = Box::new(Bump(counter.clone()));
    let task: Task<Local> = Task { key: Key::new(6), act: Some(Act::Call(call)) };
    assert!(task.settle(Poll::Pending).is_none());

    let empty: Task<Remote> = Task { key: Key::new(8), act: None };
    assert!(empty.settle(Poll::Pending).is_none());
    assert_eq!(polls.load(Ordering::SeqCst), 0);
    assert_eq!(counter.load(Ordering::SeqCst), 0);
}

fn run_twice<K: Kind>(task: Task<K>) -> (bool, bool) {
    let mut cx = Context::from_waker(Waker::noop());
    match task.run(&mut cx) {
        Some(task) => (true, task.run(&mut cx).is_some()),
        None => (false, false),
    }
}

#[test]
fn run_drives_a_task_of_either_domain() {
    let polls = Arc::new(AtomicUsize::new(0));
    let local: Task<Local> = Task { key: Key::new(9), act: Some(Act::Fut(local_fut(1, &polls))) };
    assert_eq!(run_twice(local), (true, false));
    let remote: Task<Remote> = Task { key: Key::new(9), act: Some(Act::Fut(remote_fut(2, &polls))) };
    assert_eq!(run_twice(remote), (true, true));
    let call: Box<dyn RemoteCall> = Box::new(Bump(polls.clone()));
    let once: Task<Remote> = Task { key: Key::new(9), act: Some(Act::Call(call)) };
    assert_eq!(run_twice(once), (false, false));
    assert_eq!(polls.load(Ordering::SeqCst), 5);
}

#[test]
fn keys_keep_their_number() {
    let key: Key<Local> = Key::new(42);
    assert_eq!(key.id(), 42);
    assert_eq!(key, Key::new(42));
    assert_ne!(key, Key::new(43));
    assert!(key.same(&Key::new(42)));
    assert!(!key.same(&Key::new(43)));
    let copy = key;
    assert_eq!(copy.id(), key.id());
    assert_eq!(key.clone().id(), 42);
}
