use std::sync::atomic::{AtomicUsize, Ordering};
use std::sync::Arc;
use std::task::{Wake, Waker};

use blizzard::task::header::{awaiter_to_wake, Header};
use blizzard::task::state::PollJoinHandle;

struct Counter(AtomicUsize);

impl Wake for Counter {
    fn wake(self: Arc<Self>) {
        self.0.fetch_add(1, Ordering::SeqCst);
    }
}

fn counting_waker() -> (Arc<Counter>, Waker) {
    let c = Arc::new(Counter(AtomicUsize::new(0)));
    (c.clone(), Waker::from(c))
}

#[test]
fn new_header_is_fresh() {
    let h = Header::new(7u8);
    assert_eq!(h.vtable, 7);
    assert!(h.awaiter.is_none());
    assert!(!h.debugging);
    assert_eq!(h.to_compact_string(), "b:1|s:0|r:0|c:0|x:0|refs:1");
}

#[test]
fn notify_wakes_the_registered_awaiter_once() {
    let (counter, waker) = counting_waker();
    let mut h = Header::new(());
    assert_eq!(h.state.poll_join_handle(), PollJoinHandle::Start);
    h.register(waker.clone());
    assert!(h.awaiter.is_some());
    let to_wake = h.notify(None).expect("the awaiter is handed out");
    assert!(h.awaiter.is_none());
    assert_eq!(counter.0.load(Ordering::SeqCst), 0);
    to_wake.wake();
    assert_eq!(counter.0.load(Ordering::SeqCst), 1);
    assert!(h.notify(None).is_none());
}

#[test]
fn notify_skips_the_current_task() {
    let (counter, waker) = counting_waker();
    let mut h = Header::new(());
    h.register(waker.clone());
    assert!(h.notify(Some(&waker)).is_none());
    assert!(h.awaiter.is_none());
    assert_eq!(counter.0.load(Ordering::SeqCst), 0);
}

#[test]
fn notify_wakes_an_awaiter_other_than_the_current_task() {
    let (counter, waker) = counting_waker();
    let (_other, current) = counting_waker();
    let mut h = Header::new(());
    h.register(waker.clone());
    h.notify(Some(&current)).expect("another task's waker is handed out").wake();
    assert_eq!(counter.0.load(Ordering::SeqCst), 1);
}

#[test]
fn debugging_flag() {
    let mut h = Header::new(());
    h.set_debugging(true);
    assert!(h.debugging);
}

#[test]
fn awaiter_is_woken_unless_it_is_the_current_task() {
    let (counter, waker) = counting_waker();
    let w = awaiter_to_wake(waker.clone(), false, false).expect("no current waker");
    assert!(w.will_wake(&waker));
    assert!(awaiter_to_wake(waker.clone(), false, true).is_some());
    assert!(awaiter_to_wake(waker.clone(), true, false).is_some());
    assert!(awaiter_to_wake(waker.clone(), true, true).is_none());
    assert_eq!(counter.0.load(Ordering::SeqCst), 0);
}
