//! Tracing of tasks: a registry of traced tasks and the stack of operations
//! being traced.
use vstd::prelude::*;
use std::collections::HashMap;
use std::time::Instant;
use crate::task::header::Header;

verus! {

broadcast use vstd::std_specs::hash::group_hash_axioms;

/// std's monotonic clock reading, carried opaquely.
#[verifier::external_type_specification]
#[verifier::external_body]
pub struct ExInstant(Instant);

/// Calls `Instant::now`; the reading depends on the clock, so nothing is
/// claimed of it.
#[verifier::external_body]
fn instant_now() -> Instant {
    Instant::now()
}

/// A traced task: its address, its label and when it was registered.
pub struct TaskInfo {
    pub ptr: usize,
    pub label: Option<&'static str>,
    pub ts: Instant,
}

impl TaskInfo {
    /// Information about the task at `ptr`, registered now.
    pub fn new(ptr: usize, label: Option<&'static str>) -> (r: Self)
        ensures
            r.ptr == ptr,
            r.label == label,
    {
        TaskInfo { ptr, label, ts: instant_now() }
    }
}

/// The default filter: trace the tasks that have a label.
pub fn has_label(label: Option<&'static str>) -> (r: bool)
    ensures
        r == label is Some,
{
    label.is_some()
}

/// What `register(ptr)` does, returning `traced`: the filter's answer on the
/// pending label decides; the count goes up by one; the label is consumed; a
/// traced task enters the registry under `ptr` with that label; nothing else
/// changes.
pub open spec fn registration<F: Fn(Option<&'static str>) -> bool>(
    before: TaskDebugger<F>,
    after: TaskDebugger<F>,
    ptr: usize,
    traced: bool,
) -> bool {
    &&& before.filter.ensures((before.label,), traced)
    &&& after.task_count == before.task_count + 1
    &&& after.label is None
    &&& traced ==> {
        &&& after.registry@.dom() == before.registry@.dom().insert(ptr)
        &&& after.registry@[ptr].ptr == ptr
        &&& after.registry@[ptr].label == before.label
        &&& forall|p: usize|
            p != ptr && #[trigger] before.registry@.contains_key(p) ==> after.registry@[p]
                == before.registry@[p]
    }
    &&& !traced ==> after.registry@ == before.registry@
    &&& after.filter == before.filter
    &&& after.current_task == before.current_task
    &&& after.context@ == before.context@
}

/// What `set_label(label)` does: the pending label becomes `label`; nothing
/// else changes.
pub open spec fn label_set<F>(before: TaskDebugger<F>, after: TaskDebugger<F>, label: &'static str) -> bool {
    &&& after.label == Some(label)
    &&& after.registry@ == before.registry@
    &&& after.filter == before.filter
    &&& after.task_count == before.task_count
    &&& after.current_task == before.current_task
    &&& after.context@ == before.context@
}

/// What `set_filter(filter)` does: the filter becomes `filter`; nothing else
/// changes.
pub open spec fn filter_set<F>(before: TaskDebugger<F>, after: TaskDebugger<F>, filter: F) -> bool {
    &&& after.filter == filter
    &&& after.label == before.label
    &&& after.registry@ == before.registry@
    &&& after.task_count == before.task_count
    &&& after.current_task == before.current_task
    &&& after.context@ == before.context@
}

/// How one call changes the count of live tasks.
pub enum CountStep {
    Registered,
    Unregistered,
    Unchanged,
}

/// The count after a step, from the count before it.
pub open spec fn counted<F>(before: TaskDebugger<F>, after: TaskDebugger<F>, step: CountStep) -> bool {
    match step {
        CountStep::Registered => after.task_count == before.task_count + 1,
        CountStep::Unregistered => after.task_count == before.task_count - 1,
        CountStep::Unchanged => after.task_count == before.task_count,
    }
}

/// Registrations minus unregistrations in a sequence of steps.
pub open spec fn net_registrations(steps: Seq<CountStep>) -> int
    decreases steps.len(),
{
    if steps.len() == 0 {
        0
    } else {
        net_registrations(steps.drop_last()) + match steps.last() {
            CountStep::Registered => 1int,
            CountStep::Unregistered => -1int,
            CountStep::Unchanged => 0int,
        }
    }
}

/// The tracing state of one thread. `F` decides from a task's label whether
/// the task is traced.
pub struct TaskDebugger<F> {
    /// The label for the next task to be spawned.
    pub label: Option<&'static str>,
    /// The traced tasks, by address.
    pub registry: HashMap<usize, TaskInfo>,
    /// Decides whether a task with a given label is traced.
    pub filter: F,
    /// Number of live tasks, traced or not.
    pub task_count: usize,
    /// The task that ran or was scheduled last.
    pub current_task: Option<usize>,
    /// The operations being traced, innermost last.
    pub context: Vec<&'static str>,
}

impl<F: Fn(Option<&'static str>) -> bool> TaskDebugger<F> {
    /// An empty tracer with the given filter.
    pub fn new(filter: F) -> (r: Self)
        ensures
            r.label is None,
            r.registry@ == Map::<usize, TaskInfo>::empty(),
            r.filter == filter,
            r.task_count == 0,
            r.current_task is None,
            r.context@ == Seq::<&'static str>::empty(),
    {
        TaskDebugger {
            label: None,
            registry: HashMap::new(),
            filter,
            task_count: 0,
            current_task: None,
            context: Vec::new(),
        }
    }

    /// Sets the label for the next task to be spawned.
    pub fn set_label(&mut self, label: &'static str)
        ensures
            label_set(*old(self), *final(self), label),
    {
        self.label = Some(label);
    }

    /// Replaces the filter.
    pub fn set_filter(&mut self, filter: F)
        ensures
            filter_set(*old(self), *final(self), filter),
    {
        self.filter = filter;
    }

    /// Number of live tasks.
    pub fn task_count(&self) -> (r: usize)
        ensures
            r == self.task_count,
    {
        self.task_count
    }

    /// Counts a new task at `ptr`, whose header is `header`; it takes the
    /// pending label and is traced when the filter accepts that label, in
    /// which case its header is marked as traced. Returns whether it is
    /// traced. The count must stay below `usize::MAX`.
    pub fn register<V>(&mut self, ptr: usize, header: &mut Header<V>) -> (traced: bool)
        requires
            old(self).task_count < usize::MAX,
            old(self).filter.requires((old(self).label,)),
        ensures
            registration(*old(self), *final(self), ptr, traced),
            traced ==> final(header).debugging,
            traced ==> final(header).state == old(header).state && final(header).vtable == old(
                header,
            ).vtable && final(header).awaiter == old(header).awaiter,
            !traced ==> *final(header) == *old(header),
    {
        self.task_count = self.task_count + 1;
        let label = self.label.take();
        if (self.filter)(label) {
            self.registry.insert(ptr, TaskInfo::new(ptr, label));
            header.set_debugging(true);
            true
        } else {
            false
        }
    }

    /// Forgets the task at `ptr`. At least one task must be counted.
    pub fn unregister(&mut self, ptr: usize)
        requires
            old(self).task_count >= 1,
        ensures
            final(self).task_count == old(self).task_count - 1,
            final(self).registry@ == old(self).registry@.remove(ptr),
            final(self).label == old(self).label,
            final(self).filter == old(self).filter,
            final(self).current_task == old(self).current_task,
            final(self).context@ == old(self).context@,
    {
        self.task_count = self.task_count - 1;
        let _ = self.registry.remove(&ptr);
    }

    /// Leaves the innermost traced operation.
    pub fn leave(&mut self)
        ensures
            final(self).context@ == if old(self).context@.len() == 0 {
                old(self).context@
            } else {
                old(self).context@.drop_last()
            },
            final(self).label == old(self).label,
            final(self).registry@ == old(self).registry@,
            final(self).filter == old(self).filter,
            final(self).task_count == old(self).task_count,
            final(self).current_task == old(self).current_task,
    {
        let _ = self.context.pop();
    }

    /// Records the task that runs or is scheduled now.
    pub fn set_current_task(&mut self, ptr: usize)
        ensures
            final(self).current_task == Some(ptr),
            final(self).label == old(self).label,
            final(self).registry@ == old(self).registry@,
            final(self).filter == old(self).filter,
            final(self).task_count == old(self).task_count,
            final(self).context@ == old(self).context@,
    {
        self.current_task = Some(ptr);
    }

    /// Enters the operation `ctx` on the task at `ptr`: when that task is
    /// traced the operation is pushed on the context stack. Returns whether it
    /// is traced (the caller then logs the task).
    pub fn enter(&mut self, ptr: usize, ctx: &'static str) -> (traced: bool)
        ensures
            traced == old(self).registry@.contains_key(ptr),
            final(self).context@ == if traced {
                old(self).context@.push(ctx)
            } else {
                old(self).context@
            },
            final(self).label == old(self).label,
            final(self).registry@ == old(self).registry@,
            final(self).filter == old(self).filter,
            final(self).task_count == old(self).task_count,
            final(self).current_task == old(self).current_task,
    {
        if self.registry.contains_key(&ptr) {
            self.context.push(ctx);
            true
        } else {
            false
        }
    }
}

/// The positions of the ages above `older_than`, in order.
pub open spec fn aged_positions(ages: Seq<u128>, older_than: u128) -> Seq<usize>
    decreases ages.len(),
{
    if ages.len() == 0 {
        Seq::empty()
    } else {
        let rest = aged_positions(ages.drop_last(), older_than);
        if ages.last() > older_than {
            rest.push((ages.len() - 1) as usize)
        } else {
            rest
        }
    }
}

/// The positions, in order, of the tasks whose age (in nanoseconds) is above
/// `older_than`; the caller logs those tasks and their number.
pub fn aged_tasks(ages: &Vec<u128>, older_than: u128) -> (r: Vec<usize>)
    ensures
        r@ == aged_positions(ages@, older_than),
{
    let mut r: Vec<usize> = Vec::new();
    let mut i: usize = 0;
    while i < ages.len()
        invariant
            i <= ages@.len(),
            r@ == aged_positions(ages@.take(i as int), older_than),
        decreases ages@.len() - i,
    {
        assert(ages@.take(i as int + 1).drop_last() =~= ages@.take(i as int));
        if ages[i] > older_than {
            r.push(i);
        }
        i = i + 1;
    }
    assert(ages@.take(ages@.len() as int) =~= ages@);
    r
}

/// A label applies to the next registered task only: the task registered
/// after it sees no label (and, if traced, is recorded without one), while
/// the labelled task keeps its label in the registry.
pub proof fn lemma_label_applies_to_next_task_only<F: Fn(Option<&'static str>) -> bool>(
    d0: TaskDebugger<F>,
    d1: TaskDebugger<F>,
    d2: TaskDebugger<F>,
    p: usize,
    q: usize,
    traced_p: bool,
    traced_q: bool,
)
    requires
        registration(d0, d1, p, traced_p),
        registration(d1, d2, q, traced_q),
        p != q,
    ensures
        d1.filter.ensures((None::<&'static str>,), traced_q),
        traced_q ==> d2.registry@[q].label is None,
        traced_p ==> d2.registry@.contains_key(p) && d2.registry@[p].label == d0.label,
{
    if traced_p {
        assert(d1.registry@.contains_key(p));
    }
}

/// Registration answers with the filter in force at the time: after
/// `set_filter(f)`, whether the next task is traced is `f`'s answer on the
/// pending label.
pub proof fn lemma_register_uses_current_filter<F: Fn(Option<&'static str>) -> bool>(
    d0: TaskDebugger<F>,
    d1: TaskDebugger<F>,
    d2: TaskDebugger<F>,
    f: F,
    p: usize,
    traced: bool,
)
    requires
        filter_set(d0, d1, f),
        registration(d1, d2, p, traced),
    ensures
        f.ensures((d0.label,), traced),
        traced ==> d2.registry@.contains_key(p) && d2.registry@[p].label == d0.label,
        !traced ==> d2.registry@ == d0.registry@,
        d2.task_count == d0.task_count + 1,
{
}

/// `set_label(label)` labels exactly the next task registered: that task is
/// judged by the filter on `Some(label)` and, if traced, recorded with that
/// label; the task registered after it is judged on no label and, if traced,
/// recorded without one.
pub proof fn lemma_set_label_labels_next_task_only<F: Fn(Option<&'static str>) -> bool>(
    d0: TaskDebugger<F>,
    d1: TaskDebugger<F>,
    d2: TaskDebugger<F>,
    d3: TaskDebugger<F>,
    label: &'static str,
    p: usize,
    q: usize,
    traced_p: bool,
    traced_q: bool,
)
    requires
        label_set(d0, d1, label),
        registration(d1, d2, p, traced_p),
        registration(d2, d3, q, traced_q),
        p != q,
    ensures
        d1.filter.ensures((Some(label),), traced_p),
        traced_p ==> d3.registry@.contains_key(p) && d3.registry@[p].label == Some(label),
        d2.filter.ensures((None::<&'static str>,), traced_q),
        traced_q ==> d3.registry@[q].label is None,
        d3.label is None,
{
    lemma_label_applies_to_next_task_only(d1, d2, d3, p, q, traced_p, traced_q);
}

/// The count of live tasks is the count it started from plus the
/// registrations minus the unregistrations since.
pub proof fn lemma_count_is_registrations_minus_unregistrations<F>(
    states: Seq<TaskDebugger<F>>,
    steps: Seq<CountStep>,
)
    requires
        states.len() == steps.len() + 1,
        forall|i: int| 0 <= i < steps.len() ==> #[trigger] counted(states[i], states[i + 1], steps[i]),
    ensures
        states.last().task_count == states[0].task_count + net_registrations(steps),
    decreases steps.len(),
{
    if steps.len() > 0 {
        let n = steps.len() - 1;
        let s0 = states.drop_last();
        let t0 = steps.drop_last();
        assert forall|i: int| 0 <= i < t0.len() implies #[trigger] counted(s0[i], s0[i + 1], t0[i]) by {
            assert(counted(states[i], states[i + 1], steps[i]));
        }
        lemma_count_is_registrations_minus_unregistrations(s0, t0);
        assert(counted(states[n], states[n + 1], steps[n]));
    }
}

/// Unregistering a task that registration traced gives back the registry
/// as it was before, when the address was not in use.
pub proof fn lemma_register_then_unregister(
    registry: Map<usize, TaskInfo>,
    traced: Map<usize, TaskInfo>,
    ptr: usize,
)
    requires
        !registry.contains_key(ptr),
        traced.dom() == registry.dom().insert(ptr),
        forall|p: usize| p != ptr && #[trigger] registry.contains_key(p) ==> traced[p] == registry[p],
    ensures
        traced.remove(ptr) == registry,
{
    assert(traced.remove(ptr) =~= registry);
}

} // verus!
