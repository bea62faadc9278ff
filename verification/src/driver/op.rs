//! In-flight operations: their life cycle and the table that holds them.
use vstd::prelude::*;
use std::task::Waker;
use slotmap::{DefaultKey, Key, KeyData, SlotMap};
use crate::task::header::wakers_match;

verus! {

/// Whatever an abandoned operation must keep alive until the kernel is done
/// with it (its buffers).
pub trait Retained {}

impl<T> Retained for T {}

/// The stage of an operation submitted to the kernel.
pub enum Lifecycle {
    /// Submitted and in flight.
    Submitted,
    /// The submitter waits for the completion.
    Waiting(Waker),
    /// The submitter lost interest; the state is held until the completion.
    Ignored(Box<dyn Retained>),
    /// Completed with this result (a count, or a raw OS error number) and
    /// these completion flags.
    Completed(Result<u32, i32>, u32),
}

/// The table of in-flight operations: slotmap's slot map, held opaquely; its
/// contents are `op_slots`.
#[verifier::external_body]
pub struct OpSlots {
    slots: SlotMap<DefaultKey, Lifecycle>,
}

/// The stage of an operation, without the values it carries opaquely.
#[derive(Debug, Clone, Copy, PartialEq, Eq)]
pub enum LifecycleView {
    Submitted,
    Waiting,
    Ignored,
    Completed(Result<u32, i32>, u32),
}

/// The stage of a `Lifecycle`.
pub open spec fn lifecycle_view(l: Lifecycle) -> LifecycleView {
    match l {
        Lifecycle::Submitted => LifecycleView::Submitted,
        Lifecycle::Waiting(_) => LifecycleView::Waiting,
        Lifecycle::Ignored(_) => LifecycleView::Ignored,
        Lifecycle::Completed(r, f) => LifecycleView::Completed(r, f),
    }
}

/// What the slot map holds: for the number of each key (`KeyData::as_ffi`),
/// the operation's life cycle stored under it.
pub uninterp spec fn op_slots(slots: OpSlots) -> Map<u64, Lifecycle>;

/// Whether `n` is of the form `KeyData::as_ffi` gives a key: the version in
/// the high half is odd.
pub open spec fn is_key_number(n: u64) -> bool {
    (n >> 32u64) & 1 == 1
}

/// Decides whether `n` has the form of a key number.
pub fn has_key_form(n: u64) -> (r: bool)
    ensures
        r == is_key_number(n),
{
    (n >> 32u64) & 1 == 1
}

/// Calls `SlotMap::with_capacity_and_key`: an empty map. Its first allocation
/// is for `capacity + 1` slots, which must not overflow.
#[verifier::external_body]
fn slots_with_capacity(capacity: usize) -> (s: OpSlots)
    requires
        capacity < usize::MAX,
    ensures
        op_slots(s) =~= Map::empty(),
{
    OpSlots { slots: SlotMap::with_capacity_and_key(capacity) }
}

/// Calls `SlotMap::insert` and returns the new key's number. `insert` puts
/// the value in a vacant slot with an odd version, so the key is not in use;
/// it panics when the map holds `u32::MAX - 1` values, which is not accepted.
#[verifier::external_body]
fn slots_insert(slots: &mut OpSlots, value: Lifecycle) -> (key: u64)
    requires
        op_slots(*old(slots)).len() < 0xffff_fffe,
    ensures
        is_key_number(key),
        !op_slots(*old(slots)).contains_key(key),
        op_slots(*final(slots)) == op_slots(*old(slots)).insert(key, value),
{
    slots.slots.insert(value).data().as_ffi()
}

/// Calls `SlotMap::remove` on the key numbered `key` (`KeyData::from_ffi`,
/// which gives back the key whose `as_ffi` it was): the value stored under it,
/// if any, is taken out.
#[verifier::external_body]
fn slots_remove(slots: &mut OpSlots, key: u64) -> (r: Option<Lifecycle>)
    requires
        is_key_number(key),
    ensures
        op_slots(*final(slots)) == op_slots(*old(slots)).remove(key),
        r is Some <==> op_slots(*old(slots)).contains_key(key),
        r is Some ==> r->0 == op_slots(*old(slots))[key],
{
    slots.slots.remove(KeyData::from_ffi(key).into())
}

/// Calls `SlotMap::get` on the key numbered `key` and hands out the stage of
/// the value stored under it, if any.
#[verifier::external_body]
fn slots_stage(slots: &OpSlots, key: u64) -> (r: Option<LifecycleView>)
    requires
        is_key_number(key),
    ensures
        r == if op_slots(*slots).contains_key(key) {
            Some(lifecycle_view(op_slots(*slots)[key]))
        } else {
            None
        },
{
    slots.slots.get(KeyData::from_ffi(key).into()).map(|l| l.stage())
}

/// Calls `SlotMap::len`: the number of stored values.
#[verifier::external_body]
fn slots_len(slots: &OpSlots) -> (n: usize)
    ensures
        n == op_slots(*slots).len(),
{
    slots.slots.len()
}

/// Calls `SlotMap::index_mut` on the key numbered `key`: the value stored
/// under it, mutably. It panics on a key not in use, which is not accepted.
#[verifier::external_body]
fn slots_index_mut(slots: &mut OpSlots, key: u64) -> (r: &mut Lifecycle)
    requires
        op_slots(*old(slots)).contains_key(key),
    ensures
        *r == op_slots(*old(slots))[key],
        op_slots(*final(slots)) == op_slots(*old(slots)).insert(key, *final(r)),
{
    &mut slots.slots[KeyData::from_ffi(key).into()]
}

/// Decides which waker a waiting operation keeps when polled: the kept one
/// when it would wake the same task as the poller's (`same_task`, as
/// `Waker::will_wake` answers), the poller's otherwise.
pub fn keep_or_replace(kept: Waker, poller: Waker, same_task: bool) -> (w: Waker)
    ensures
        w == if same_task {
            kept
        } else {
            poller
        },
{
    if same_task {
        kept
    } else {
        poller
    }
}

/// What polling an operation gives.
#[derive(Debug, Clone, Copy, PartialEq, Eq)]
pub enum OpPoll {
    /// Not completed yet; the poller's waker is registered.
    Pending,
    /// Completed with this result and these flags.
    Ready(Result<u32, i32>, u32),
}

/// The stage after a completion arrives, and whether the slot must be freed
/// (nobody waits for an abandoned operation). An abandoned operation's stage
/// is left as `Submitted`.
pub open spec fn complete_step(l: LifecycleView, result: Result<u32, i32>, flags: u32) -> (
    LifecycleView,
    bool,
) {
    match l {
        LifecycleView::Ignored => (LifecycleView::Submitted, true),
        _ => (LifecycleView::Completed(result, flags), false),
    }
}

/// The stage after a poll, and what the poll gives.
pub open spec fn poll_step(l: LifecycleView) -> (LifecycleView, OpPoll) {
    match l {
        LifecycleView::Completed(result, flags) => (
            LifecycleView::Submitted,
            OpPoll::Ready(result, flags),
        ),
        _ => (LifecycleView::Waiting, OpPoll::Pending),
    }
}

impl Lifecycle {
    /// The stage, without the values carried opaquely.
    pub fn stage(&self) -> (r: LifecycleView)
        ensures
            r == lifecycle_view(*self),
    {
        match self {
            Lifecycle::Submitted => LifecycleView::Submitted,
            Lifecycle::Waiting(_) => LifecycleView::Waiting,
            Lifecycle::Ignored(_) => LifecycleView::Ignored,
            Lifecycle::Completed(r, f) => LifecycleView::Completed(*r, *f),
        }
    }

    /// Records the kernel's completion. Returns whether the operation was
    /// abandoned, so that its slot must be freed, and the waker of a waiting
    /// submitter, to be woken by the caller. An operation completes only once.
    pub fn complete(&mut self, result: Result<u32, i32>, flags: u32) -> (r: (bool, Option<Waker>))
        requires
            !(lifecycle_view(*old(self)) is Completed),
        ensures
            (lifecycle_view(*final(self)), r.0) == complete_step(
                lifecycle_view(*old(self)),
                result,
                flags,
            ),
            *old(self) is Ignored ==> *final(self) == Lifecycle::Submitted,
            !(*old(self) is Ignored) ==> *final(self) == Lifecycle::Completed(result, flags),
            *old(self) matches Lifecycle::Waiting(w) ==> r.1 == Some(w),
            !(*old(self) is Waiting) ==> r.1 is None,
    {
        let mut prev = Lifecycle::Submitted;
        std::mem::swap(&mut prev, self);
        match prev {
            Lifecycle::Submitted => {
                *self = Lifecycle::Completed(result, flags);
                (false, None)
            },
            Lifecycle::Waiting(waker) => {
                *self = Lifecycle::Completed(result, flags);
                (false, Some(waker))
            },
            Lifecycle::Ignored(_) => (true, None),
            Lifecycle::Completed(_, _) => {
                proof {
                    assert(false);
                }
                (false, None)
            },
        }
    }

    /// Polls the operation on behalf of the task whose waker is `waker`. Until
    /// the completion arrives a waker is kept: `waker` for a submitted
    /// operation; for a waiting one the kept waker, unless it would wake a
    /// different task, when `waker` replaces it. Once the completion arrived,
    /// its result is handed out. An abandoned operation is never polled.
    pub fn poll_op(&mut self, waker: Waker) -> (r: OpPoll)
        requires
            !(lifecycle_view(*old(self)) is Ignored),
        ensures
            (lifecycle_view(*final(self)), r) == poll_step(lifecycle_view(*old(self))),
            *old(self) is Submitted ==> *final(self) == Lifecycle::Waiting(waker),
            *old(self) matches Lifecycle::Waiting(w) ==> (*final(self) == Lifecycle::Waiting(w)
                || *final(self) == Lifecycle::Waiting(waker)),
    {
        let mut prev = Lifecycle::Submitted;
        std::mem::swap(&mut prev, self);
        match prev {
            Lifecycle::Submitted => {
                *self = Lifecycle::Waiting(waker);
                OpPoll::Pending
            },
            Lifecycle::Waiting(w) => {
                let same_task = wakers_match(&w, &waker);
                *self = Lifecycle::Waiting(keep_or_replace(w, waker, same_task));
                OpPoll::Pending
            },
            Lifecycle::Ignored(_) => {
                proof {
                    assert(false);
                }
                OpPoll::Pending
            },
            Lifecycle::Completed(result, flags) => OpPoll::Ready(result, flags),
        }
    }
}

/// The result of a completion entry: a non-negative `res` is a count, a
/// negative one the negated OS error number.
pub open spec fn result_of(res: i32) -> Result<u32, i32> {
    if res >= 0 {
        Ok(res as u32)
    } else {
        Err(-res as i32)
    }
}

/// Turns a completion entry's `res` into a result. `i32::MIN` cannot be
/// negated and is not accepted.
pub fn resultify(res: i32) -> (r: Result<u32, i32>)
    requires
        res != i32::MIN,
    ensures
        r == result_of(res),
{
    if res >= 0 {
        Ok(res as u32)
    } else {
        Err(-res)
    }
}

/// The operations in flight, by key number.
pub struct Ops {
    slot: OpSlots,
}

impl View for Ops {
    type V = Map<u64, Lifecycle>;

    closed spec fn view(&self) -> Map<u64, Lifecycle> {
        op_slots(self.slot)
    }
}

impl Ops {
    /// Every key in use is a key number, and finitely many are in use.
    pub closed spec fn wf(&self) -> bool {
        &&& forall|k: u64| #[trigger] self@.contains_key(k) ==> is_key_number(k)
        &&& self@.dom().finite()
    }

    /// No operation in flight.
    pub fn new() -> (r: Self)
        ensures
            r.wf(),
            r@ == Map::<u64, Lifecycle>::empty(),
    {
        Ops { slot: slots_with_capacity(64) }
    }

    /// Records a newly submitted operation and returns its key. The slot map
    /// panics when full; that is not accepted.
    pub fn insert(&mut self) -> (key: u64)
        requires
            old(self).wf(),
            old(self)@.len() < 0xffff_fffe,
        ensures
            final(self).wf(),
            is_key_number(key),
            !old(self)@.contains_key(key),
            final(self)@ == old(self)@.insert(key, Lifecycle::Submitted),
    {
        slots_insert(&mut self.slot, Lifecycle::Submitted)
    }

    /// Forgets the operation under `key`, if any.
    pub fn remove(&mut self, key: u64)
        requires
            old(self).wf(),
            is_key_number(key),
        ensures
            final(self).wf(),
            final(self)@ == old(self)@.remove(key),
    {
        let _ = slots_remove(&mut self.slot, key);
    }

    /// The stage of the operation under `key`, if one is.
    pub fn stage(&self, key: u64) -> (r: Option<LifecycleView>)
        requires
            self.wf(),
        ensures
            r == if self@.contains_key(key) {
                Some(lifecycle_view(self@[key]))
            } else {
                None
            },
    {
        if has_key_form(key) {
            slots_stage(&self.slot, key)
        } else {
            None
        }
    }

    /// Number of operations in flight.
    pub fn len(&self) -> (n: usize)
        ensures
            n == self@.len(),
    {
        slots_len(&self.slot)
    }

    /// Records the completion of the operation under `key`; an abandoned
    /// operation's slot is freed. Returns the waker of a waiting submitter,
    /// to be woken by the caller.
    pub fn complete(&mut self, key: u64, result: Result<u32, i32>, flags: u32) -> (to_wake: Option<Waker>)
        requires
            old(self).wf(),
            old(self)@.contains_key(key),
            !(old(self)@[key] is Completed),
        ensures
            final(self).wf(),
            old(self)@[key] is Ignored ==> final(self)@ == old(self)@.remove(key),
            !(old(self)@[key] is Ignored) ==> final(self)@ == old(self)@.insert(
                key,
                Lifecycle::Completed(result, flags),
            ),
            old(self)@[key] matches Lifecycle::Waiting(w) ==> to_wake == Some(w),
            !(old(self)@[key] is Waiting) ==> to_wake is None,
    {
        let slot = slots_index_mut(&mut self.slot, key);
        let (abandoned, to_wake) = slot.complete(result, flags);
        if abandoned {
            let _ = slots_remove(&mut self.slot, key);
        }
        to_wake
    }

    /// Polls the operation under `key` for the task whose waker is `waker`:
    /// a submitted operation now holds `waker`; a waiting one keeps its waker
    /// or takes `waker` (when the kept one would wake another task); once
    /// completed its slot is freed and the result handed out.
    pub fn poll(&mut self, key: u64, waker: Waker) -> (r: OpPoll)
        requires
            old(self).wf(),
            old(self)@.contains_key(key),
            !(old(self)@[key] is Ignored),
        ensures
            final(self).wf(),
            r == poll_step(lifecycle_view(old(self)@[key])).1,
            r is Ready ==> final(self)@ == old(self)@.remove(key),
            old(self)@[key] is Submitted ==> final(self)@ == old(self)@.insert(
                key,
                Lifecycle::Waiting(waker),
            ),
            old(self)@[key] matches Lifecycle::Waiting(w) ==> (final(self)@ == old(self)@.insert(
                key,
                Lifecycle::Waiting(w),
            ) || final(self)@ == old(self)@.insert(key, Lifecycle::Waiting(waker))),
    {
        let slot = slots_index_mut(&mut self.slot, key);
        let r = slot.poll_op(waker);
        if let OpPoll::Ready(_, _) = r {
            let _ = slots_remove(&mut self.slot, key);
        }
        r
    }

    /// Dispatches one completion entry: entries of the driver's own requests
    /// are skipped; the others complete the operation whose key number is
    /// their `user_data`. Returns the waker of a waiting submitter, to be
    /// woken by the caller.
    pub fn complete_entry(&mut self, user_data: u64, res: i32, flags: u32) -> (to_wake: Option<Waker>)
        requires
            old(self).wf(),
            user_data < crate::driver::MIN_REVERSED_USERDATA ==> {
                &&& old(self)@.contains_key(user_data)
                &&& !(old(self)@[user_data] is Completed)
                &&& res != i32::MIN
            },
        ensures
            final(self).wf(),
            user_data >= crate::driver::MIN_REVERSED_USERDATA ==> final(self)@ == old(self)@
                && to_wake is None,
            user_data < crate::driver::MIN_REVERSED_USERDATA && old(self)@[user_data] is Ignored
                ==> final(self)@ == old(self)@.remove(user_data),
            user_data < crate::driver::MIN_REVERSED_USERDATA && !(old(
                self,
            )@[user_data] is Ignored) ==> final(self)@ == old(self)@.insert(
                user_data,
                Lifecycle::Completed(result_of(res), flags),
            ),
            user_data < crate::driver::MIN_REVERSED_USERDATA ==> (old(self)@[user_data] matches Lifecycle::Waiting(w) ==> to_wake == Some(w)),
            user_data < crate::driver::MIN_REVERSED_USERDATA ==> (!(old(self)@[user_data] is Waiting) ==> to_wake is None),
    {
        if crate::driver::is_reserved_user_data(user_data) {
            // A cancellation or timeout: the operation it targeted completes
            // with its own entry.
            return None;
        }
        self.complete(user_data, resultify(res), flags)
    }
}

/// A completion that arrives for an operation nobody abandoned is handed
/// out, exactly as the kernel reported it, by the next poll; the stage is
/// then back to `Submitted` (and `Ops::poll` frees the slot).
pub proof fn lemma_completion_is_delivered(
    l: LifecycleView,
    result: Result<u32, i32>,
    flags: u32,
)
    requires
        !(l is Ignored),
        !(l is Completed),
    ensures
        poll_step(complete_step(l, result, flags).0) == (
            LifecycleView::Submitted,
            OpPoll::Ready(result, flags),
        ),
{
}

/// Polling before the completion arrives only waits, however often it is
/// done, and the completion then still arrives as for a submitted operation.
pub proof fn lemma_polls_before_completion_wait(l: LifecycleView, result: Result<u32, i32>, flags: u32)
    requires
        l is Submitted || l is Waiting,
    ensures
        poll_step(l) == (LifecycleView::Waiting, OpPoll::Pending),
        poll_step(poll_step(l).0) == poll_step(l),
        complete_step(poll_step(l).0, result, flags) == complete_step(l, result, flags),
{
}

} // verus!
