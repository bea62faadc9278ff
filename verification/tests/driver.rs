use std::sync::atomic::{AtomicUsize, Ordering};
use std::sync::Arc;
use std::task::{Wake, Waker};

use blizzard::driver::op::{has_key_form, keep_or_replace, resultify, Lifecycle, LifecycleView, OpPoll, Ops};
use blizzard::driver::{
    is_reserved_user_data, submit_action, SubmitAction, SubmitOutcome, submission_needs_flush, CANCEL_USERDATA, MIN_REVERSED_USERDATA,
    TIMEOUT_USERDATA,
};

struct Counter(AtomicUsize);

impl Wake for Counter {
    fn wake(self: Arc<Self>) {
        self.0.fetch_add(1, Ordering::SeqCst);
    }
}

fn counting_waker() -> (Arc<Counter>, Waker) {
    let c = Arc::new(Counter(AtomicUsize::new(0)));
    (c.clone(), Waker::from(c))
}

#[test]
fn resultify_splits_counts_and_errors() {
    assert_eq!(resultify(0), Ok(0));
    assert_eq!(resultify(4096), Ok(4096));
    assert_eq!(resultify(-11), Err(11));
    assert_eq!(resultify(i32::MAX), Ok(i32::MAX as u32));
}

#[test]
fn reserved_user_data() {
    assert!(is_reserved_user_data(CANCEL_USERDATA));
    assert!(is_reserved_user_data(TIMEOUT_USERDATA));
    assert!(is_reserved_user_data(MIN_REVERSED_USERDATA));
    assert!(!is_reserved_user_data(MIN_REVERSED_USERDATA - 1));
    assert!(!is_reserved_user_data(0x1_0000_0001));
}

#[test]
fn flush_needed_when_entries_do_not_fit() {
    assert!(!submission_needs_flush(0, 1, 256));
    assert!(!submission_needs_flush(255, 1, 256));
    assert!(submission_needs_flush(256, 1, 256));
    assert!(submission_needs_flush(250, 10, 256));
}

#[test]
fn completion_before_poll_is_handed_out() {
    let (_c, waker) = counting_waker();
    let mut ops = Ops::new();
    let key = ops.insert();
    assert_eq!(ops.len(), 1);
    assert!(ops.complete(key, Ok(7), 2).is_none());
    assert_eq!(ops.len(), 1);
    assert_eq!(ops.poll(key, waker.clone()), OpPoll::Ready(Ok(7), 2));
    assert_eq!(ops.len(), 0);
}

#[test]
fn poll_before_completion_waits_and_is_woken() {
    let (counter, waker) = counting_waker();
    let mut ops = Ops::new();
    let key = ops.insert();
    assert_eq!(ops.poll(key, waker.clone()), OpPoll::Pending);
    assert_eq!(ops.poll(key, waker.clone()), OpPoll::Pending);
    assert_eq!(counter.0.load(Ordering::SeqCst), 0);
    ops.complete_entry(key, -2, 0).expect("the waiting submitter").wake();
    assert_eq!(counter.0.load(Ordering::SeqCst), 1);
    assert_eq!(ops.poll(key, waker.clone()), OpPoll::Ready(Err(2), 0));
    assert_eq!(ops.len(), 0);
}

#[test]
fn reserved_entries_are_skipped() {
    let mut ops = Ops::new();
    let key = ops.insert();
    assert!(ops.complete_entry(TIMEOUT_USERDATA, 0, 0).is_none());
    assert!(ops.complete_entry(CANCEL_USERDATA, -125, 0).is_none());
    let (_c, waker) = counting_waker();
    assert_eq!(ops.poll(key, waker.clone()), OpPoll::Pending);
}

#[test]
fn keys_are_distinct_and_removable() {
    let mut ops = Ops::new();
    let a = ops.insert();
    let b = ops.insert();
    assert_ne!(a, b);
    ops.remove(a);
    assert_eq!(ops.len(), 1);
    ops.remove(a);
    assert_eq!(ops.len(), 1);
    let c = ops.insert();
    assert_ne!(c, a);
    assert_ne!(c, b);
    assert_eq!(ops.len(), 2);
}

#[test]
fn abandoned_operation_is_freed_on_completion() {
    let mut l = Lifecycle::Ignored(Box::new(vec![0u8; 4]));
    assert!(l.complete(Ok(4), 0).0);
    assert!(matches!(l, Lifecycle::Submitted));
    let mut s = Lifecycle::Submitted;
    let (abandoned, to_wake) = s.complete(Ok(1), 3);
    assert!(!abandoned && to_wake.is_none());
    assert!(matches!(s, Lifecycle::Completed(Ok(1), 3)));
}

#[test]
fn lifecycle_replaces_waker_of_another_task() {
    let (first, w1) = counting_waker();
    let (second, w2) = counting_waker();
    let mut l = Lifecycle::Submitted;
    assert_eq!(l.poll_op(w1.clone()), OpPoll::Pending);
    assert_eq!(l.poll_op(w2.clone()), OpPoll::Pending);
    let (abandoned, to_wake) = l.complete(Ok(0), 0);
    assert!(!abandoned);
    to_wake.expect("the waiting submitter").wake();
    assert_eq!(first.0.load(Ordering::SeqCst), 0);
    assert_eq!(second.0.load(Ordering::SeqCst), 1);
    assert_eq!(l.poll_op(w2), OpPoll::Ready(Ok(0), 0));
}

#[test]
fn stages_are_visible_by_key() {
    let (_c, waker) = counting_waker();
    let mut ops = Ops::new();
    let key = ops.insert();
    assert!(has_key_form(key));
    assert!(!has_key_form(5));
    assert_eq!(ops.stage(key), Some(LifecycleView::Submitted));
    assert_eq!(ops.stage(5), None);
    let _ = ops.poll(key, waker.clone());
    assert_eq!(ops.stage(key), Some(LifecycleView::Waiting));
    assert!(ops.complete(key, Ok(3), 1).is_some());
    assert_eq!(ops.stage(key), Some(LifecycleView::Completed(Ok(3), 1)));
    let _ = ops.poll(key, waker.clone());
    assert_eq!(ops.stage(key), None);
}

#[test]
fn submission_retries_only_on_busy_or_other_errors() {
    assert_eq!(submit_action(SubmitOutcome::Submitted), SubmitAction::Finish);
    assert_eq!(submit_action(SubmitOutcome::OtherError), SubmitAction::ReapAndRetry);
    assert_eq!(submit_action(SubmitOutcome::Busy), SubmitAction::ReapAndRetry);
    assert_eq!(submit_action(SubmitOutcome::Failed), SubmitAction::Fail);
}

#[test]
fn poll_of_a_submitted_operation_keeps_the_waker_and_completion_hands_it_back() {
    let (counter, waker) = counting_waker();
    let mut ops = Ops::new();
    let key = ops.insert();
    assert_eq!(ops.poll(key, waker.clone()), OpPoll::Pending);
    let handed = ops.complete(key, Ok(1), 0).expect("the stored waker");
    assert!(handed.will_wake(&waker));
    handed.wake();
    assert_eq!(counter.0.load(Ordering::SeqCst), 1);
}

#[test]
fn waiting_operation_takes_the_waker_of_another_poller() {
    let (_kept_counter, kept) = counting_waker();
    let (_poller_counter, poller) = counting_waker();
    let same = keep_or_replace(kept.clone(), poller.clone(), true);
    assert!(same.will_wake(&kept));
    assert!(!same.will_wake(&poller));
    let other = keep_or_replace(kept.clone(), poller.clone(), false);
    assert!(other.will_wake(&poller));
    assert!(!other.will_wake(&kept));
}
