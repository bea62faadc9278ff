//! The header at the start of every task allocation.
use vstd::prelude::*;
use std::task::Waker;
use crate::task::state::{compact_text, flag_number, initial_view, State};

verus! {

/// std's waker, carried opaquely.
#[verifier::external_type_specification]
#[verifier::external_body]
pub struct ExWaker(Waker);

/// Calls `Waker::will_wake`. std answers on a best-effort basis from the
/// wakers' data pointers and vtables, so nothing is claimed of the answer.
#[verifier::external_body]
pub(crate) fn wakers_match(waker: &Waker, other: &Waker) -> bool {
    waker.will_wake(other)
}

/// Decides whether the awaiter is woken: it is, unless a current waker is
/// given and the awaiter would wake the same task as that one (`same_task`,
/// as `Waker::will_wake` answers), in which case it is dropped.
pub fn awaiter_to_wake(awaiter: Waker, current_given: bool, same_task: bool) -> (r: Option<Waker>)
    ensures
        r == if current_given && same_task {
            None
        } else {
            Some(awaiter)
        },
{
    if current_given && same_task {
        None
    } else {
        Some(awaiter)
    }
}

/// A task's header: its state word, the table of functions that handle its
/// allocation (`V`), and the waker of the task that awaits its join handle.
pub struct Header<V> {
    /// Current state of the task.
    pub state: State,
    /// The functions that schedule, run, drop and free the task.
    pub vtable: V,
    /// The waker of the task that awaits the join handle; it is woken when
    /// the task completes or is cancelled.
    pub awaiter: Option<Waker>,
    /// Whether the task is being traced.
    pub debugging: bool,
}

impl<V> Header<V> {
    /// A header for a fresh task: initial state, no awaiter, not traced.
    pub fn new(vtable: V) -> (r: Self)
        ensures
            r.state@ == initial_view(),
            r.vtable == vtable,
            r.awaiter is None,
            !r.debugging,
    {
        Header { state: State::new(), awaiter: None, vtable, debugging: false }
    }

    /// Takes the waker of the task that awaits this one, to be woken by the
    /// caller; the header forgets it.
    ///
    /// Without `current`, the awaiter is handed out. With `current` given, an
    /// awaiter that would wake the same task as `current` is dropped instead
    /// and nothing is handed out; which case holds is `Waker::will_wake`'s
    /// answer, decided by `awaiter_to_wake`.
    pub fn notify(&mut self, current: Option<&Waker>) -> (to_wake: Option<Waker>)
        ensures
            final(self).awaiter is None,
            old(self).awaiter is None ==> to_wake is None,
            current is None ==> to_wake == old(self).awaiter,
            to_wake is Some ==> to_wake == old(self).awaiter,
            final(self).state == old(self).state,
            final(self).vtable == old(self).vtable,
            final(self).debugging == old(self).debugging,
    {
        let waker = self.awaiter.take();
        match waker {
            None => None,
            Some(w) => match current {
                None => awaiter_to_wake(w, false, false),
                Some(c) => {
                    let same_task = wakers_match(&w, c);
                    awaiter_to_wake(w, true, same_task)
                },
            },
        }
    }

    /// Registers the waker of the task that awaits the join handle, replacing
    /// any previous one.
    pub fn register(&mut self, waker: Waker)
        ensures
            final(self).awaiter == Some(waker),
            final(self).state == old(self).state,
            final(self).vtable == old(self).vtable,
            final(self).debugging == old(self).debugging,
    {
        self.awaiter = Some(waker);
    }

    /// Marks the task as traced or not.
    pub fn set_debugging(&mut self, debug: bool)
        ensures
            final(self).debugging == debug,
            final(self).state == old(self).state,
            final(self).vtable == old(self).vtable,
            final(self).awaiter == old(self).awaiter,
    {
        self.debugging = debug
    }

    /// The compact text of the task's state.
    pub fn to_compact_string(&self) -> (r: String)
        ensures
            r@ == compact_text(
                flag_number(self.state@.need_start),
                flag_number(self.state@.scheduled),
                flag_number(self.state@.running),
                flag_number(self.state@.completed),
                flag_number(self.state@.closed),
                (self.state@.refs as i32) as int,
            ),
    {
        self.state.to_compact_string()
    }
}

} // verus!
