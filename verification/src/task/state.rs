//! The state of a task, packed into one machine word.
//!
//! The low five bits are lifecycle and scheduling flags; the remaining high
//! bits count the references (join handle, task reference, wakers) that keep
//! the task allocated.
use vstd::prelude::*;
use vstd::string::StringExecFns;

verus! {

/// Set while the task's future is being polled.
pub const RUNNING: usize = 0b0_0001;

/// Set once polling returned `Ready`. Once set it is never unset.
pub const COMPLETED: usize = 0b0_0010;

/// Set once the task is cancelled or its output has been consumed.
pub const CLOSED: usize = 0b0_0100;

/// The lifecycle bits.
pub const LIFECYCLE_MASK: usize = RUNNING | COMPLETED | CLOSED;

/// Set while the task is waiting in a run queue (or will be re-queued after
/// the current poll).
pub const SCHEDULED: usize = 0b0_1000;

/// Set until the join handle is polled for the first time.
pub const NEED_START: usize = 0b1_0000;

/// All flag bits.
pub const STATE_MASK: usize = LIFECYCLE_MASK | SCHEDULED | NEED_START;

/// Bits used by the reference count.
pub const REF_COUNT_MASK: usize = !STATE_MASK;

/// Number of positions the reference count is shifted by.
pub const REF_COUNT_SHIFT: usize = 5;

/// Largest reference count the word can hold.
pub const REF_COUNT_MAX: usize = usize::MAX >> REF_COUNT_SHIFT;

/// One reference.
pub const REF_ONE: usize = 0b10_0000;

/// A fresh task: one reference (its join handle), not yet started.
pub const INITIAL_STATE: usize = REF_ONE | NEED_START;

/// The meaning of a state word.
pub struct StateView {
    pub need_start: bool,
    pub scheduled: bool,
    pub running: bool,
    pub completed: bool,
    pub closed: bool,
    pub refs: usize,
}

/// Reads the flags and the reference count out of a state word.
pub open spec fn decode(w: usize) -> StateView {
    StateView {
        running: w & 1 == 1,
        completed: w & 2 == 2,
        closed: w & 4 == 4,
        scheduled: w & 8 == 8,
        need_start: w & 16 == 16,
        refs: w >> 5,
    }
}

/// The state a task starts in.
pub open spec fn initial_view() -> StateView {
    StateView {
        need_start: true,
        scheduled: false,
        running: false,
        completed: false,
        closed: false,
        refs: 1,
    }
}

/// The state a task is put in when its last reference goes away before it
/// finished: closed and scheduled one more time so that its future is dropped,
/// holding `refs` references.
pub open spec fn closing_view(refs: usize) -> StateView {
    StateView {
        need_start: false,
        scheduled: true,
        running: false,
        completed: false,
        closed: true,
        refs: refs,
    }
}

// ---------------------------------------------------------------------------
// Bit-level facts about the encoding.
// ---------------------------------------------------------------------------
proof fn lemma_or_flag(w: usize, b: usize)
    by (bit_vector)
    requires
        b == 1 || b == 2 || b == 4 || b == 8 || b == 16,
    ensures
        ((w | b) & 1 == 1) == (b == 1 || w & 1 == 1),
        ((w | b) & 2 == 2) == (b == 2 || w & 2 == 2),
        ((w | b) & 4 == 4) == (b == 4 || w & 4 == 4),
        ((w | b) & 8 == 8) == (b == 8 || w & 8 == 8),
        ((w | b) & 16 == 16) == (b == 16 || w & 16 == 16),
        (w | b) >> 5 == w >> 5,
{
}

proof fn lemma_clear_flag(w: usize, b: usize)
    by (bit_vector)
    requires
        b == 1 || b == 2 || b == 4 || b == 8 || b == 16,
    ensures
        ((w & !b) & 1 == 1) == (b != 1 && w & 1 == 1),
        ((w & !b) & 2 == 2) == (b != 2 && w & 2 == 2),
        ((w & !b) & 4 == 4) == (b != 4 && w & 4 == 4),
        ((w & !b) & 8 == 8) == (b != 8 && w & 8 == 8),
        ((w & !b) & 16 == 16) == (b != 16 && w & 16 == 16),
        (w & !b) >> 5 == w >> 5,
{
}

proof fn lemma_add_ref(w: usize)
    by (bit_vector)
    requires
        w >> 5 < (!0usize) >> 5,
    ensures
        (w + 32) as usize == w + 32,
        (((w + 32) as usize) & 1 == 1) == (w & 1 == 1),
        (((w + 32) as usize) & 2 == 2) == (w & 2 == 2),
        (((w + 32) as usize) & 4 == 4) == (w & 4 == 4),
        (((w + 32) as usize) & 8 == 8) == (w & 8 == 8),
        (((w + 32) as usize) & 16 == 16) == (w & 16 == 16),
        ((w + 32) as usize) >> 5 == (w >> 5) + 1,
{
}

proof fn lemma_sub_ref(w: usize)
    by (bit_vector)
    requires
        w >> 5 >= 1,
    ensures
        w >= 32,
        (((w - 32) as usize) & 1 == 1) == (w & 1 == 1),
        (((w - 32) as usize) & 2 == 2) == (w & 2 == 2),
        (((w - 32) as usize) & 4 == 4) == (w & 4 == 4),
        (((w - 32) as usize) & 8 == 8) == (w & 8 == 8),
        (((w - 32) as usize) & 16 == 16) == (w & 16 == 16),
        ((w - 32) as usize) >> 5 == (w >> 5) - 1,
{
}

proof fn lemma_replace_flags(w: usize, f: usize)
    by (bit_vector)
    requires
        f <= 31,
    ensures
        (((w & !31usize) | f) & 1 == 1) == (f & 1 == 1),
        (((w & !31usize) | f) & 2 == 2) == (f & 2 == 2),
        (((w & !31usize) | f) & 4 == 4) == (f & 4 == 4),
        (((w & !31usize) | f) & 8 == 8) == (f & 8 == 8),
        (((w & !31usize) | f) & 16 == 16) == (f & 16 == 16),
        ((w & !31usize) | f) >> 5 == w >> 5,
{
}

proof fn lemma_refs_mask(w: usize)
    by (bit_vector)
    ensures
        (w & !31usize) >> 5 == w >> 5,
{
}

proof fn lemma_word_determined(a: usize, b: usize)
    by (bit_vector)
    requires
        (a & 1 == 1) == (b & 1 == 1),
        (a & 2 == 2) == (b & 2 == 2),
        (a & 4 == 4) == (b & 4 == 4),
        (a & 8 == 8) == (b & 8 == 8),
        (a & 16 == 16) == (b & 16 == 16),
        a >> 5 == b >> 5,
    ensures
        a == b,
{
}

proof fn lemma_small_words()
    by (bit_vector)
    ensures
        48usize & 1 == 0,
        48usize & 2 == 0,
        48usize & 4 == 0,
        48usize & 8 == 0,
        48usize & 16 == 16,
        48usize >> 5 == 1,
        12usize & 1 == 0,
        12usize & 2 == 0,
        12usize & 4 == 4,
        12usize & 8 == 8,
        12usize & 16 == 0,
        (((1usize | 2usize) | 4usize) | 8usize) | 16usize == 31usize,
        (32usize | 16usize) == 48usize,
        (8usize | 4usize) == 12usize,
        (!0usize) >> 5 >= 1,
{
}

proof fn lemma_incr_bound(w: usize)
    by (bit_vector)
    requires
        w >> 5 <= ((!0usize) >> 5) / 2,
    ensures
        w <= (!0usize) >> 1,
        w >> 5 < (!0usize) >> 5,
{
}

pub(crate) proof fn lemma_below_all_ones(x: usize)
    by (bit_vector)
    ensures
        x <= !0usize,
{
}

/// All bits set is the largest word.
proof fn lemma_all_ones()
    ensures
        !0usize == usize::MAX,
{
    lemma_below_all_ones(usize::MAX);
}

/// The largest reference count is positive.
proof fn lemma_ref_count_max_positive()
    ensures
        REF_COUNT_MAX >= 1,
{
    lemma_all_ones();
    lemma_small_words();
}

proof fn lemma_shift_is_division(x: usize)
    by (bit_vector)
    ensures
        x >> 5 == x / 32,
{
}

/// The largest reference count is the largest word divided by 32.
pub proof fn lemma_ref_count_max()
    ensures
        REF_COUNT_MAX == usize::MAX / 32,
{
    lemma_shift_is_division(usize::MAX);
}

/// Two words with the same meaning are the same word.
proof fn lemma_decode_injective(a: usize, b: usize)
    requires
        decode(a) == decode(b),
    ensures
        a == b,
{
    lemma_word_determined(a, b);
}

/// The initial word means the initial state, and no other word does.
proof fn lemma_initial_word(w: usize)
    ensures
        decode(INITIAL_STATE) == initial_view(),
        (w == INITIAL_STATE) == (decode(w) == initial_view()),
{
    lemma_small_words();
    if decode(w) == initial_view() {
        lemma_decode_injective(w, INITIAL_STATE);
    }
}

/// A copy of a task's state word, decoded and edited locally before it is
/// written back.
#[derive(Copy, Clone)]
pub struct Snapshot(usize);

impl View for Snapshot {
    type V = StateView;

    closed spec fn view(&self) -> StateView {
        decode(self.0)
    }
}

/// The decimal digit for `d` in `0..10`.
pub open spec fn digit_char(d: int) -> char {
    if d == 0 { '0' }
    else if d == 1 { '1' }
    else if d == 2 { '2' }
    else if d == 3 { '3' }
    else if d == 4 { '4' }
    else if d == 5 { '5' }
    else if d == 6 { '6' }
    else if d == 7 { '7' }
    else if d == 8 { '8' }
    else { '9' }
}

/// The decimal digits of a natural number, without leading zeros.
pub open spec fn nat_decimal(n: nat) -> Seq<char>
    decreases n,
{
    if n < 10 {
        seq![digit_char(n as int)]
    } else {
        nat_decimal(n / 10).push(digit_char((n % 10) as int))
    }
}

/// An integer as `Display` writes it: a minus sign for negatives, then the digits.
pub open spec fn int_decimal(n: int) -> Seq<char> {
    if n < 0 {
        seq!['-'] + nat_decimal((-n) as nat)
    } else {
        nat_decimal(n as nat)
    }
}

/// `b:{}|s:{}|r:{}|c:{}|x:{}|refs:{}` filled with the six numbers.
pub open spec fn compact_text(b: int, s: int, r: int, c: int, x: int, refs: int) -> Seq<char> {
    seq!['b', ':'] + int_decimal(b) + seq!['|', 's', ':'] + int_decimal(s) + seq!['|', 'r', ':']
        + int_decimal(r) + seq!['|', 'c', ':'] + int_decimal(c) + seq!['|', 'x', ':'] + int_decimal(
        x,
    ) + seq!['|', 'r', 'e', 'f', 's', ':'] + int_decimal(refs)
}

/// The one-character text of the decimal digit `d`.
fn digit_str(d: u32) -> (t: &'static str)
    requires
        d < 10,
    ensures
        t@ == seq![digit_char(d as int)],
{
    proof {
        reveal_strlit("0");
        reveal_strlit("1");
        reveal_strlit("2");
        reveal_strlit("3");
        reveal_strlit("4");
        reveal_strlit("5");
        reveal_strlit("6");
        reveal_strlit("7");
        reveal_strlit("8");
        reveal_strlit("9");
    }
    if d == 0 {
        "0"
    } else if d == 1 {
        "1"
    } else if d == 2 {
        "2"
    } else if d == 3 {
        "3"
    } else if d == 4 {
        "4"
    } else if d == 5 {
        "5"
    } else if d == 6 {
        "6"
    } else if d == 7 {
        "7"
    } else if d == 8 {
        "8"
    } else {
        "9"
    }
}

/// Appends the decimal digits of `n`, most significant first.
fn append_digits(text: &mut String, n: u32)
    ensures
        final(text)@ == old(text)@ + nat_decimal(n as nat),
    decreases n,
{
    if n >= 10 {
        append_digits(text, n / 10);
    }
    text.append(digit_str(n % 10));
    assert(final(text)@ =~= old(text)@ + nat_decimal(n as nat)) by {
        if n >= 10 {
            assert(nat_decimal(n as nat) == nat_decimal((n / 10) as nat).push(digit_char((n % 10) as int)));
        }
    }
}

/// Appends `label` and then the decimal text of `n`.
fn append_field(text: &mut String, label: &str, n: i32)
    ensures
        final(text)@ == old(text)@ + label@ + int_decimal(n as int),
{
    text.append(label);
    let ghost with_label = text@;
    if n < 0 {
        proof {
            reveal_strlit("-");
        }
        text.append("-");
        let magnitude: u32 = (0i64 - n as i64) as u32;
        append_digits(text, magnitude);
        assert(text@ =~= with_label + (seq!['-'] + nat_decimal((-n) as nat)));
    } else {
        append_digits(text, n as u32);
    }
    assert(text@ =~= old(text)@ + label@ + int_decimal(n as int));
}

/// 1 for a set flag, 0 for a clear one.
pub open spec fn flag_number(b: bool) -> int {
    if b { 1 } else { 0 }
}

fn flag_i32(b: bool) -> (r: i32)
    ensures
        r as int == flag_number(b),
{
    if b { 1 } else { 0 }
}

impl Snapshot {
    fn xor(&mut self, other: usize)
        ensures
            final(self).0 == old(self).0 ^ other,
    {
        self.0 ^= other;
    }

    fn add(&mut self, other: usize)
        requires
            old(self).0 + other <= usize::MAX,
        ensures
            final(self).0 == old(self).0 + other,
    {
        self.0 += other
    }

    fn sub(&mut self, other: usize)
        requires
            old(self).0 >= other,
        ensures
            final(self).0 == old(self).0 - other,
    {
        self.0 -= other
    }

    /// Adds one reference. The count must be below its maximum (a full count
    /// is a fatal error for the runtime).
    pub fn incr_ref(&mut self)
        requires
            old(self)@.refs < REF_COUNT_MAX,
        ensures
            final(self)@ == (StateView { refs: (old(self)@.refs + 1) as usize, ..old(self)@ }),
    {
        proof {
            lemma_all_ones();
            lemma_add_ref(self.0);
        }
        self.add(REF_ONE);
    }

    /// Drops one reference.
    pub fn decr_ref(&mut self)
        requires
            old(self)@.refs >= 1,
        ensures
            final(self)@ == (StateView { refs: (old(self)@.refs - 1) as usize, ..old(self)@ }),
    {
        proof {
            lemma_sub_ref(self.0);
        }
        self.sub(REF_ONE);
    }

    pub fn is_scheduled(self) -> (r: bool)
        ensures
            r == self@.scheduled,
    {
        (self.0 & SCHEDULED) == SCHEDULED
    }

    pub fn unset_scheduled(&mut self)
        ensures
            final(self)@ == (StateView { scheduled: false, ..old(self)@ }),
    {
        proof {
            lemma_clear_flag(self.0, SCHEDULED);
        }
        self.0 &= !SCHEDULED
    }

    pub fn set_scheduled(&mut self)
        ensures
            final(self)@ == (StateView { scheduled: true, ..old(self)@ }),
    {
        proof {
            lemma_or_flag(self.0, SCHEDULED);
        }
        self.0 |= SCHEDULED
    }

    pub fn is_running(self) -> (r: bool)
        ensures
            r == self@.running,
    {
        self.0 & RUNNING == RUNNING
    }

    pub fn set_running(&mut self)
        ensures
            final(self)@ == (StateView { running: true, ..old(self)@ }),
    {
        proof {
            lemma_or_flag(self.0, RUNNING);
        }
        self.0 |= RUNNING;
    }

    pub fn unset_running(&mut self)
        ensures
            final(self)@ == (StateView { running: false, ..old(self)@ }),
    {
        proof {
            lemma_clear_flag(self.0, RUNNING);
        }
        self.0 &= !RUNNING;
    }

    /// Whether the task's future has completed.
    pub fn is_completed(self) -> (r: bool)
        ensures
            r == self@.completed,
    {
        self.0 & COMPLETED == COMPLETED
    }

    pub fn need_start(self) -> (r: bool)
        ensures
            r == self@.need_start,
    {
        self.0 & NEED_START == NEED_START
    }

    pub fn unset_need_start(&mut self)
        ensures
            final(self)@ == (StateView { need_start: false, ..old(self)@ }),
    {
        proof {
            lemma_clear_flag(self.0, NEED_START);
        }
        self.0 &= !NEED_START;
    }

    pub fn set_completed(&mut self)
        ensures
            final(self)@ == (StateView { completed: true, ..old(self)@ }),
    {
        proof {
            lemma_or_flag(self.0, COMPLETED);
        }
        self.0 |= COMPLETED
    }

    pub fn is_closed(self) -> (r: bool)
        ensures
            r == self@.closed,
    {
        self.0 & CLOSED == CLOSED
    }

    pub fn set_closed(&mut self)
        ensures
            final(self)@ == (StateView { closed: true, ..old(self)@ }),
    {
        proof {
            lemma_or_flag(self.0, CLOSED);
        }
        self.0 |= CLOSED;
    }

    pub fn ref_count(self) -> (r: usize)
        ensures
            r == self@.refs,
    {
        proof {
            lemma_small_words();
            lemma_refs_mask(self.0);
        }
        (self.0 & REF_COUNT_MASK) >> REF_COUNT_SHIFT
    }

    /// Replaces the flags by `state` and keeps the reference count.
    pub fn set_state(&mut self, state: usize)
        requires
            state <= STATE_MASK,
        ensures
            final(self)@ == (StateView { refs: old(self)@.refs, ..decode(state) }),
    {
        proof {
            lemma_small_words();
            lemma_replace_flags(self.0, state);
        }
        self.0 = (self.0 & REF_COUNT_MASK) | state
    }

    /// `b:{}|s:{}|r:{}|c:{}|x:{}|refs:{}` with need-start, scheduled, running,
    /// completed and closed as 0 or 1 and the reference count as an `i32`.
    pub fn to_compact_string(&self) -> (r: String)
        ensures
            r@ == compact_text(
                flag_number(self@.need_start),
                flag_number(self@.scheduled),
                flag_number(self@.running),
                flag_number(self@.completed),
                flag_number(self@.closed),
                (self@.refs as i32) as int,
            ),
    {
        let ghost b = flag_number(self@.need_start);
        let ghost sc = flag_number(self@.scheduled);
        let ghost ru = flag_number(self@.running);
        let ghost co = flag_number(self@.completed);
        let ghost cl = flag_number(self@.closed);
        let ghost refs = (self@.refs as i32) as int;
        proof {
            reveal_strlit("b:");
            reveal_strlit("|s:");
            reveal_strlit("|r:");
            reveal_strlit("|c:");
            reveal_strlit("|x:");
            reveal_strlit("|refs:");
        }
        let mut text = String::new();
        append_field(&mut text, "b:", flag_i32(self.need_start()));
        assert(text@ =~= seq!['b', ':'] + int_decimal(b));
        append_field(&mut text, "|s:", flag_i32(self.is_scheduled()));
        assert(text@ =~= seq!['b', ':'] + int_decimal(b) + seq!['|', 's', ':'] + int_decimal(sc));
        append_field(&mut text, "|r:", flag_i32(self.is_running()));
        assert(text@ =~= seq!['b', ':'] + int_decimal(b) + seq!['|', 's', ':'] + int_decimal(sc)
            + seq!['|', 'r', ':'] + int_decimal(ru));
        append_field(&mut text, "|c:", flag_i32(self.is_completed()));
        assert(text@ =~= seq!['b', ':'] + int_decimal(b) + seq!['|', 's', ':'] + int_decimal(sc)
            + seq!['|', 'r', ':'] + int_decimal(ru) + seq!['|', 'c', ':'] + int_decimal(co));
        append_field(&mut text, "|x:", flag_i32(self.is_closed()));
        assert(text@ =~= seq!['b', ':'] + int_decimal(b) + seq!['|', 's', ':'] + int_decimal(sc)
            + seq!['|', 'r', ':'] + int_decimal(ru) + seq!['|', 'c', ':'] + int_decimal(co)
            + seq!['|', 'x', ':'] + int_decimal(cl));
        append_field(&mut text, "|refs:", self.ref_count() as i32);
        assert(text@ =~= compact_text(b, sc, ru, co, cl, refs));
        text
    }
}

/// What the executor does after a poll returned `Pending`.
#[must_use]
#[derive(Debug, Clone, Copy, PartialEq, Eq)]
pub enum TransitionToIdle {
    DoNothing,
    /// The task was closed while running: drop its future and notify the awaiter.
    Closed,
    /// The task was woken while running: put it back in the queue.
    Schedule,
}

/// What a waker does after marking the task scheduled.
#[must_use]
#[derive(Debug, Clone, Copy, PartialEq, Eq)]
pub enum TransitionToScheduled {
    DoNothing,
    /// Hand the task to its scheduler.
    Submit,
}

/// What a cancellation through the join handle does.
#[must_use]
#[derive(Debug, Clone, Copy, PartialEq, Eq)]
pub enum TransitionToClosed {
    DoNothing,
    /// The task is now closed; with `true` it must also be scheduled once more
    /// so that its future gets dropped.
    Closed(bool),
}

/// What running a task does.
#[must_use]
#[derive(Debug, Clone, Copy, PartialEq, Eq)]
pub enum TransitionToRunning {
    /// The task was closed: drop its future instead of polling it.
    Closed,
    /// Poll the future.
    Running,
}

/// What the executor does after a poll returned `Ready`.
#[must_use]
#[derive(Debug, Clone, Copy, PartialEq, Eq)]
pub enum TransitionToCompleted {
    /// Nobody will read the output: drop it.
    Closed,
    DoNothing,
}

/// What dropping a waker does.
#[must_use]
#[derive(Debug, Clone, Copy, PartialEq, Eq)]
pub enum DropWaker {
    /// The last reference is gone: free the task.
    Destroy,
    /// Schedule the task once more so that its future gets dropped.
    Schedule,
    DoNothing,
}

/// What dropping a join handle does.
#[must_use]
#[derive(Debug, Clone, Copy, PartialEq, Eq)]
pub enum DropJoinHandle {
    /// Free the task.
    Destroy,
    /// Drop the unread output; with `true` also free the task.
    DropOutput(bool),
    /// Schedule the task once more so that its future gets dropped.
    Schedule,
    DoNothing,
    /// Notify the awaiter that the task has been closed.
    Close,
}

/// What polling a join handle does.
#[must_use]
#[derive(Debug, Clone, Copy, PartialEq, Eq)]
pub enum PollJoinHandle {
    /// The task has never run: register the waker and schedule the task.
    Start,
    /// Not finished: register the waker and wait.
    Register,
    /// Finished; with `true` there is no output (the task was closed).
    Complete(bool),
}

// ---------------------------------------------------------------------------
// The transitions, stated over the meaning of the word.
// ---------------------------------------------------------------------------

/// `transition_to_running`: clears `scheduled`; sets `running` unless closed.
pub open spec fn running_step(s: StateView) -> (StateView, TransitionToRunning) {
    if s.closed {
        (StateView { scheduled: false, ..s }, TransitionToRunning::Closed)
    } else {
        (StateView { scheduled: false, running: true, ..s }, TransitionToRunning::Running)
    }
}

/// `transition_to_idle`: clears `running`; a closed task is also unscheduled.
pub open spec fn idle_step(s: StateView) -> (StateView, TransitionToIdle) {
    if s.closed {
        (StateView { running: false, scheduled: false, ..s }, TransitionToIdle::Closed)
    } else if s.scheduled {
        (StateView { running: false, ..s }, TransitionToIdle::Schedule)
    } else {
        (StateView { running: false, ..s }, TransitionToIdle::DoNothing)
    }
}

/// `transition_to_scheduled`: a live, unscheduled task becomes scheduled and is
/// submitted unless it is running.
pub open spec fn scheduled_step(s: StateView) -> (StateView, TransitionToScheduled) {
    if s.completed || s.closed || s.scheduled {
        (s, TransitionToScheduled::DoNothing)
    } else if s.running {
        (StateView { scheduled: true, ..s }, TransitionToScheduled::DoNothing)
    } else {
        (StateView { scheduled: true, ..s }, TransitionToScheduled::Submit)
    }
}

/// `transition_to_completed`: the task stops running, is unscheduled and
/// completed; it is closed too when no reference is left or it was closed.
pub open spec fn completed_step(s: StateView) -> (StateView, TransitionToCompleted) {
    let t = StateView { running: false, scheduled: false, completed: true, ..s };
    if s.refs == 0 || s.closed {
        (StateView { closed: true, ..t }, TransitionToCompleted::Closed)
    } else {
        (t, TransitionToCompleted::DoNothing)
    }
}

/// `transition_to_closed` (cancellation through the join handle).
pub open spec fn closed_step(s: StateView) -> (StateView, TransitionToClosed) {
    if s.need_start {
        (StateView { closed: true, ..s }, TransitionToClosed::DoNothing)
    } else if s.completed || s.closed {
        (s, TransitionToClosed::DoNothing)
    } else if !s.scheduled && !s.running {
        (
            StateView { scheduled: true, closed: true, refs: (s.refs + 1) as usize, ..s },
            TransitionToClosed::Closed(true),
        )
    } else {
        (StateView { closed: true, ..s }, TransitionToClosed::Closed(false))
    }
}

/// Inputs on which `transition_to_closed` does not abort on a full reference count.
pub open spec fn closed_step_allowed(s: StateView) -> bool {
    !s.need_start && !s.completed && !s.closed && !s.scheduled && !s.running ==> s.refs
        < REF_COUNT_MAX
}

/// `drop_join_handle`.
pub open spec fn join_drop_step(s: StateView) -> (StateView, DropJoinHandle) {
    if s == initial_view() {
        (s, DropJoinHandle::Destroy)
    } else {
        let t = StateView { refs: (s.refs - 1) as usize, ..s };
        if t.completed && !t.closed {
            (StateView { closed: true, ..t }, DropJoinHandle::DropOutput(t.refs == 0))
        } else if t.refs == 0 && !t.closed {
            (closing_view(1), DropJoinHandle::Schedule)
        } else if t.refs == 0 {
            (t, DropJoinHandle::Destroy)
        } else {
            (StateView { closed: true, ..t }, DropJoinHandle::DoNothing)
        }
    }
}

/// Inputs on which `drop_join_handle` does not underflow the reference
/// count nor reach its unreachable arm (a closed task that keeps other
/// references).
pub open spec fn join_drop_allowed(s: StateView) -> bool {
    s != initial_view() ==> {
        &&& s.refs >= 1
        &&& !(s.refs > 1 && s.closed)
    }
}

/// `poll_join_handle`.
pub open spec fn join_poll_step(s: StateView) -> (StateView, PollJoinHandle) {
    if s.closed {
        if s.scheduled || s.running {
            (s, PollJoinHandle::Register)
        } else {
            (StateView { need_start: false, ..s }, PollJoinHandle::Complete(true))
        }
    } else if s.need_start {
        (StateView { need_start: false, ..s }, PollJoinHandle::Start)
    } else if !s.completed {
        (s, PollJoinHandle::Register)
    } else {
        (StateView { closed: true, ..s }, PollJoinHandle::Complete(false))
    }
}

/// `drop_waker`.
pub open spec fn waker_drop_step(s: StateView) -> (StateView, DropWaker) {
    let t = StateView { refs: (s.refs - 1) as usize, ..s };
    if t.refs == 0 {
        if !t.completed && !t.closed {
            (closing_view(0), if !s.scheduled { DropWaker::Schedule } else { DropWaker::DoNothing })
        } else {
            (t, DropWaker::Destroy)
        }
    } else {
        (t, DropWaker::DoNothing)
    }
}

/// `cancel`: a task that is neither completed nor closed becomes closed and scheduled.
pub open spec fn cancel_step(s: StateView) -> StateView {
    if s.completed || s.closed {
        s
    } else {
        StateView { closed: true, scheduled: true, ..s }
    }
}

/// `set_closed`: after a panicking poll the task is neither running nor
/// scheduled, and closed.
pub open spec fn panic_close_step(s: StateView) -> StateView {
    StateView { running: false, scheduled: false, closed: true, ..s }
}

/// `drop_task`: the task reference is gone: unscheduled and closed.
pub open spec fn task_drop_step(s: StateView) -> StateView {
    StateView { scheduled: false, closed: true, ..s }
}

/// One more reference.
pub open spec fn ref_added(s: StateView) -> StateView {
    StateView { refs: (s.refs + 1) as usize, ..s }
}

/// One reference less.
pub open spec fn ref_removed(s: StateView) -> StateView {
    StateView { refs: (s.refs - 1) as usize, ..s }
}

/// The word of a task header.
pub struct State(usize);

impl View for State {
    type V = StateView;

    closed spec fn view(&self) -> StateView {
        decode(self.0)
    }
}

impl State {
    /// A fresh task: one reference, held by its join handle, not started yet.
    pub fn new() -> (r: Self)
        ensures
            r@ == initial_view(),
    {
        proof {
            lemma_initial_word(0);
        }
        State(INITIAL_STATE)
    }

    /// Reads the current word.
    pub fn load(&self) -> (r: Snapshot)
        ensures
            r@ == self@,
    {
        Snapshot(self.0)
    }

    /// Writes a word.
    pub fn store(&mut self, val: Snapshot)
        ensures
            final(self)@ == val@,
    {
        self.0 = val.0
    }

    /// Running starts: the scheduled flag is cleared so that wake-ups during the
    /// poll can be seen; a closed task is not marked running.
    pub fn transition_to_running(&mut self) -> (r: TransitionToRunning)
        ensures
            (final(self)@, r) == running_step(old(self)@),
    {
        let mut snapshot = self.load();
        snapshot.unset_scheduled();
        let action = if snapshot.is_closed() {
            TransitionToRunning::Closed
        } else {
            snapshot.set_running();
            TransitionToRunning::Running
        };
        self.store(snapshot);
        action
    }

    /// Running -> idle, after a poll returned `Pending`.
    pub fn transition_to_idle(&mut self) -> (r: TransitionToIdle)
        ensures
            (final(self)@, r) == idle_step(old(self)@),
    {
        let mut snapshot = self.load();
        snapshot.unset_running();
        let action = if snapshot.is_closed() {
            snapshot.unset_scheduled();
            TransitionToIdle::Closed
        } else if snapshot.is_scheduled() {
            TransitionToIdle::Schedule
        } else {
            TransitionToIdle::DoNothing
        };
        self.store(snapshot);
        action
    }

    /// Marks the task scheduled (a wake-up).
    pub fn transition_to_scheduled(&mut self) -> (r: TransitionToScheduled)
        ensures
            (final(self)@, r) == scheduled_step(old(self)@),
    {
        let mut snapshot = self.load();
        let action = if snapshot.is_completed() || snapshot.is_closed()
            || snapshot.is_scheduled() {
            TransitionToScheduled::DoNothing
        } else {
            snapshot.set_scheduled();
            if snapshot.is_running() {
                TransitionToScheduled::DoNothing
            } else {
                TransitionToScheduled::Submit
            }
        };
        self.store(snapshot);
        action
    }

    /// Marks the task completed, after a poll returned `Ready`.
    pub fn transition_to_completed(&mut self) -> (r: TransitionToCompleted)
        ensures
            (final(self)@, r) == completed_step(old(self)@),
    {
        let mut snapshot = self.load();
        snapshot.unset_running();
        snapshot.unset_scheduled();
        snapshot.set_completed();
        let action = if snapshot.ref_count() == 0 || snapshot.is_closed() {
            snapshot.set_closed();
            TransitionToCompleted::Closed
        } else {
            TransitionToCompleted::DoNothing
        };
        self.store(snapshot);
        action
    }

    /// Cancellation through the join handle.
    pub fn transition_to_closed(&mut self) -> (r: TransitionToClosed)
        requires
            closed_step_allowed(old(self)@),
        ensures
            (final(self)@, r) == closed_step(old(self)@),
    {
        let mut snapshot = self.load();
        let action = if snapshot.need_start() {
            snapshot.set_closed();
            TransitionToClosed::DoNothing
        } else if snapshot.is_completed() || snapshot.is_closed() {
            TransitionToClosed::DoNothing
        } else if !snapshot.is_scheduled() && !snapshot.is_running() {
            snapshot.set_scheduled();
            snapshot.set_closed();
            snapshot.incr_ref();
            TransitionToClosed::Closed(true)
        } else {
            snapshot.set_closed();
            TransitionToClosed::Closed(false)
        };
        self.store(snapshot);
        action
    }

    /// The join handle goes away.
    pub fn drop_join_handle(&mut self) -> (r: DropJoinHandle)
        requires
            join_drop_allowed(old(self)@),
        ensures
            (final(self)@, r) == join_drop_step(old(self)@),
    {
        let mut snapshot = self.load();
        proof {
            lemma_initial_word(snapshot.0);
        }
        if snapshot.0 == INITIAL_STATE {
            return DropJoinHandle::Destroy;
        }
        snapshot.decr_ref();
        let last = snapshot.ref_count() == 0;
        let completed = snapshot.is_completed();
        let closed = snapshot.is_closed();
        let action = if completed && !closed {
            // Completed but nobody read the output: it must be dropped.
            snapshot.set_closed();
            DropJoinHandle::DropOutput(last)
        } else if last && !closed {
            // Last reference to a live task: schedule it once more so that its
            // future gets dropped.
            proof {
                lemma_small_words();
                lemma_ref_count_max_positive();
            }
            snapshot.set_state(SCHEDULED | CLOSED);
            snapshot.incr_ref();
            DropJoinHandle::Schedule
        } else if last {
            DropJoinHandle::Destroy
        } else {
            // Still referenced, neither completed nor closed: it is scheduled or
            // running; mark it closed.
            snapshot.set_closed();
            DropJoinHandle::DoNothing
        };
        self.store(snapshot);
        action
    }

    /// The join handle is polled.
    pub fn poll_join_handle(&mut self) -> (r: PollJoinHandle)
        ensures
            (final(self)@, r) == join_poll_step(old(self)@),
    {
        let mut snapshot = self.load();
        let action = if snapshot.is_closed() {
            if snapshot.is_scheduled() || snapshot.is_running() {
                // Wait until its future is dropped.
                PollJoinHandle::Register
            } else {
                snapshot.unset_need_start();
                PollJoinHandle::Complete(true)
            }
        } else if snapshot.need_start() {
            snapshot.unset_need_start();
            PollJoinHandle::Start
        } else if !snapshot.is_completed() {
            PollJoinHandle::Register
        } else {
            snapshot.set_closed();
            PollJoinHandle::Complete(false)
        };
        self.store(snapshot);
        action
    }

    /// Closes the task after its poll panicked.
    pub fn set_closed(&mut self)
        ensures
            final(self)@ == panic_close_step(old(self)@),
    {
        let mut val = self.load();
        val.unset_running();
        val.unset_scheduled();
        val.set_closed();
        self.store(val);
    }

    /// Adds a reference. The word must not exceed `isize::MAX` (a larger one is
    /// a fatal error for the runtime).
    pub fn incr_ref(&mut self)
        requires
            old(self)@.refs <= REF_COUNT_MAX / 2,
        ensures
            final(self)@ == ref_added(old(self)@),
    {
        let mut val = self.load();
        proof {
            lemma_all_ones();
            lemma_incr_bound(val.0);
            lemma_add_ref(val.0);
        }
        val.add(REF_ONE);
        self.store(val);
    }

    /// Cancels a task that is neither completed nor closed.
    pub fn cancel(&mut self)
        ensures
            final(self)@ == cancel_step(old(self)@),
    {
        let mut snapshot = self.load();
        if snapshot.is_completed() || snapshot.is_closed() {
            return;
        }
        snapshot.set_closed();
        snapshot.set_scheduled();
        self.store(snapshot);
    }

    /// A waker goes away.
    pub fn drop_waker(&mut self) -> (r: DropWaker)
        requires
            old(self)@.refs >= 1,
        ensures
            (final(self)@, r) == waker_drop_step(old(self)@),
    {
        let mut snapshot = self.load();
        snapshot.decr_ref();
        let action = if snapshot.ref_count() == 0 {
            if !snapshot.is_completed() && !snapshot.is_closed() {
                // Last reference to a live task: close it and, unless it is already
                // queued, schedule it once more so that its future gets dropped.
                let was_scheduled = snapshot.is_scheduled();
                proof {
                    lemma_small_words();
                }
                snapshot.set_state(SCHEDULED | CLOSED);
                if !was_scheduled {
                    DropWaker::Schedule
                } else {
                    DropWaker::DoNothing
                }
            } else {
                DropWaker::Destroy
            }
        } else {
            DropWaker::DoNothing
        };
        self.store(snapshot);
        action
    }

    /// The task reference is dropped without running: unscheduled and closed.
    pub fn drop_task(&mut self)
        ensures
            final(self)@ == task_drop_step(old(self)@),
    {
        let mut snapshot = self.load();
        snapshot.unset_scheduled();
        if !snapshot.is_completed() || !snapshot.is_closed() {
            snapshot.set_closed();
        }
        self.store(snapshot)
    }

    /// Drops one reference; returns whether it was the last.
    pub fn decr_ref(&mut self) -> (last: bool)
        requires
            old(self)@.refs >= 1,
        ensures
            final(self)@ == ref_removed(old(self)@),
            last == (final(self)@.refs == 0),
    {
        let mut val = self.load();
        val.decr_ref();
        self.store(val);
        val.ref_count() == 0
    }

    /// The compact text of the current word.
    pub fn to_compact_string(&self) -> (r: String)
        ensures
            r@ == compact_text(
                flag_number(self@.need_start),
                flag_number(self@.scheduled),
                flag_number(self@.running),
                flag_number(self@.completed),
                flag_number(self@.closed),
                (self@.refs as i32) as int,
            ),
    {
        let state = self.load();
        state.to_compact_string()
    }
}

} // verus!
