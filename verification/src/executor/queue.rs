//! The executor's local run queue.
use vstd::prelude::*;
use std::collections::VecDeque;

verus! {

/// Default capacity of a run queue.
pub const DEFAULT_TASK_QUEUE_SIZE: usize = 4096;

/// A first-in first-out queue of runnable tasks; `push_front` puts a task
/// that yielded at the head so that it runs next.
pub struct LocalQueue<T> {
    queue: VecDeque<T>,
}

impl<T> View for LocalQueue<T> {
    type V = Seq<T>;

    closed spec fn view(&self) -> Seq<T> {
        self.queue@
    }
}

impl<T> Default for LocalQueue<T> {
    fn default() -> (r: Self)
        ensures
            r@ == Seq::<T>::empty(),
    {
        Self::new()
    }
}

impl<T> LocalQueue<T> {
    /// An empty queue with room for the default number of tasks.
    pub fn new() -> (r: Self)
        ensures
            r@ == Seq::<T>::empty(),
    {
        Self::new_with_capacity(DEFAULT_TASK_QUEUE_SIZE)
    }

    /// An empty queue with room for `capacity` tasks.
    pub fn new_with_capacity(capacity: usize) -> (r: Self)
        ensures
            r@ == Seq::<T>::empty(),
    {
        LocalQueue { queue: VecDeque::with_capacity(capacity) }
    }

    /// Number of queued tasks.
    pub fn len(&self) -> (r: usize)
        ensures
            r == self@.len(),
    {
        self.queue.len()
    }

    /// Whether no task is queued.
    pub fn is_empty(&self) -> (r: bool)
        ensures
            r == (self@.len() == 0),
    {
        self.len() == 0
    }

    /// Queues a task at the back.
    pub fn push(&mut self, runnable: T)
        ensures
            final(self)@ == old(self)@.push(runnable),
    {
        self.queue.push_back(runnable)
    }

    /// Queues a task at the front, so that it runs next.
    pub fn push_front(&mut self, runnable: T)
        ensures
            final(self)@ == seq![runnable] + old(self)@,
    {
        self.queue.push_front(runnable)
    }

    /// Takes the task at the front.
    pub fn pop(&mut self) -> (r: Option<T>)
        ensures
            old(self)@.len() == 0 ==> r is None && final(self)@ == old(self)@,
            old(self)@.len() > 0 ==> r == Some(old(self)@[0]) && final(self)@
                == old(self)@.drop_first(),
    {
        self.queue.pop_front()
    }
}

/// Tasks leave the queue in the order they were pushed: pushing at the back
/// does not change which task comes out first, nor the order of the rest.
pub proof fn lemma_queue_is_fifo<T>(q: Seq<T>, x: T)
    requires
        q.len() > 0,
    ensures
        q.push(x)[0] == q[0],
        q.push(x).drop_first() == q.drop_first().push(x),
{
    assert(q.push(x).drop_first() =~= q.drop_first().push(x));
}

/// A task pushed at the front comes out next, and the rest of the queue is
/// as it was.
pub proof fn lemma_push_front_runs_next<T>(q: Seq<T>, x: T)
    ensures
        (seq![x] + q)[0] == x,
        (seq![x] + q).drop_first() == q,
{
    assert((seq![x] + q).drop_first() =~= q);
}

} // verus!
