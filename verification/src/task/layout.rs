//! Where the header, the scheduler and the future (or its output) sit in a
//! task's single allocation.
use vstd::prelude::*;

verus! {

/// A size and an alignment, as `std::alloc::Layout` describes a type.
#[derive(Debug, Clone, Copy, PartialEq, Eq)]
pub struct Layout {
    pub size: usize,
    pub align: usize,
}

/// The layout of a task: the whole allocation and the offsets of its parts.
/// The future and its output share one place.
#[derive(Debug, Clone, Copy, PartialEq, Eq)]
pub struct TaskLayout {
    pub layout: Layout,
    pub offset_scheduler: usize,
    pub offset_future: usize,
    pub offset_output: usize,
}

/// The larger of two numbers.
pub open spec fn max_of(a: usize, b: usize) -> usize {
    if a < b {
        b
    } else {
        a
    }
}

/// The larger of two numbers.
pub fn max(a: usize, b: usize) -> (r: usize)
    ensures
        r == max_of(a, b),
{
    if a < b {
        b
    } else {
        a
    }
}

/// Whether `n` is a power of two: exactly one bit is set.
pub open spec fn is_pow2(n: usize) -> bool {
    n != 0 && n & ((n - 1) as usize) == 0
}

/// Decides whether `n` is a power of two.
pub fn is_power_of_two(n: usize) -> (r: bool)
    ensures
        r == is_pow2(n),
{
    n != 0 && n & (n - 1) == 0
}

/// The bytes needed after `size` bytes so that what follows is aligned to
/// `align`.
pub open spec fn padding(size: usize, align: usize) -> int {
    (align - size % align) % (align as int)
}

/// `Layout::extend`: `next` placed after `first`, padded to its alignment.
/// `None` when a sum overflows, when the alignment is not a power of two, or
/// when the size rounded up to the alignment would exceed `isize::MAX`.
pub open spec fn extend_spec(first: Layout, next: Layout) -> Option<(Layout, usize)> {
    let align = max_of(first.align, next.align);
    let offset = first.size + padding(first.size, next.align);
    let size = offset + next.size;
    if offset > usize::MAX || size > usize::MAX || !is_pow2(align) || size > isize::MAX
        - (align - 1) {
        None
    } else {
        Some((Layout { size: size as usize, align }, offset as usize))
    }
}

/// The layout of a task with these parts, as `task_layout` computes it.
pub open spec fn task_layout_spec(header: Layout, scheduler: Layout, future: Layout, output: Layout) -> Option<
    TaskLayout,
> {
    let union = Layout {
        size: max_of(future.size, output.size),
        align: max_of(future.align, output.align),
    };
    match extend_spec(header, scheduler) {
        None => None,
        Some((with_scheduler, offset_scheduler)) => match extend_spec(with_scheduler, union) {
            None => None,
            Some((whole, offset_union)) => Some(
                TaskLayout {
                    layout: whole,
                    offset_scheduler,
                    offset_future: offset_union,
                    offset_output: offset_union,
                },
            ),
        },
    }
}

impl Layout {
    /// The layout with this size and alignment.
    pub fn from_size_align(size: usize, align: usize) -> (r: Layout)
        ensures
            r == (Layout { size, align }),
    {
        Layout { size, align }
    }

    /// The padding needed after this layout for something aligned to `align`.
    pub fn padding_needed_for(self, align: usize) -> (r: usize)
        requires
            align > 0,
        ensures
            r == padding(self.size, align),
    {
        proof {
            lemma_padding_value(self.size as int, align as int);
        }
        let rem = self.size % align;
        if rem == 0 {
            0
        } else {
            align - rem
        }
    }

    /// `next` placed after this layout; the new layout and `next`'s offset.
    pub fn extend(self, next: Layout) -> (r: Option<(Layout, usize)>)
        requires
            next.align > 0,
        ensures
            r == extend_spec(self, next),
    {
        let new_align = max(self.align, next.align);
        let pad = self.padding_needed_for(next.align);
        let offset = match self.size.checked_add(pad) {
            Some(o) => o,
            None => return None,
        };
        let new_size = match offset.checked_add(next.size) {
            Some(s) => s,
            None => return None,
        };
        if !is_power_of_two(new_align) {
            return None;
        }
        proof {
            lemma_pow2_minus_one_fits(new_align);
        }
        if new_size > isize::MAX as usize - (new_align - 1) {
            return None;
        }
        Some((Layout::from_size_align(new_size, new_align), offset))
    }
}

/// Lays out a task: the header, then the scheduler, then one place shared by
/// the future and its output, large and aligned enough for either.
pub fn task_layout(header: Layout, scheduler: Layout, future: Layout, output: Layout) -> (r: Option<
    TaskLayout,
>)
    requires
        scheduler.align > 0,
        future.align > 0,
        output.align > 0,
    ensures
        r == task_layout_spec(header, scheduler, future, output),
{
    let size_union = max(future.size, output.size);
    let align_union = max(future.align, output.align);
    let layout_union = Layout::from_size_align(size_union, align_union);
    let (layout, offset_scheduler) = match header.extend(scheduler) {
        Some(x) => x,
        None => return None,
    };
    let (layout, offset_union) = match layout.extend(layout_union) {
        Some(x) => x,
        None => return None,
    };
    Some(
        TaskLayout {
            layout,
            offset_scheduler,
            offset_future: offset_union,
            offset_output: offset_union,
        },
    )
}

/// In a task's layout the scheduler starts after the header and is aligned;
/// the future and the output share one place after the scheduler, aligned to
/// the larger of their alignments; and the allocation holds all of them.
pub proof fn lemma_task_layout_places_parts(
    header: Layout,
    scheduler: Layout,
    future: Layout,
    output: Layout,
)
    requires
        scheduler.align > 0,
        future.align > 0,
        output.align > 0,
        task_layout_spec(header, scheduler, future, output) is Some,
    ensures
        ({
            let t = task_layout_spec(header, scheduler, future, output)->0;
            &&& header.size <= t.offset_scheduler
            &&& (t.offset_scheduler as int) % (scheduler.align as int) == 0
            &&& t.offset_scheduler + scheduler.size <= t.offset_future
            &&& (t.offset_future as int) % (max_of(future.align, output.align) as int) == 0
            &&& t.offset_future + future.size <= t.layout.size
            &&& t.offset_output + output.size <= t.layout.size
            &&& t.offset_future == t.offset_output
        }),
{
    let union = Layout {
        size: max_of(future.size, output.size),
        align: max_of(future.align, output.align),
    };
    let (l1, off_s) = extend_spec(header, scheduler)->0;
    lemma_padding(header.size as int, scheduler.align as int);
    lemma_padding(l1.size as int, union.align as int);
    let (_, off_u) = extend_spec(l1, union)->0;
}

proof fn lemma_padding_value(s: int, al: int)
    requires
        s >= 0,
        al > 0,
    ensures
        (al - s % al) % al == if s % al == 0 { 0 } else { al - s % al },
{
    vstd::arithmetic::div_mod::lemma_mod_bound(s, al);
    if s % al == 0 {
        vstd::arithmetic::div_mod::lemma_mod_self_0(al);
    } else {
        vstd::arithmetic::div_mod::lemma_small_mod((al - s % al) as nat, al as nat);
    }
}

/// Padding brings a size up to the next multiple of the alignment.
proof fn lemma_padding(s: int, al: int)
    requires
        s >= 0,
        al > 0,
    ensures
        0 <= (al - s % al) % al < al,
        (s + (al - s % al) % al) % al == 0,
{
    lemma_padding_value(s, al);
    vstd::arithmetic::div_mod::lemma_mod_bound(s, al);
    if s % al != 0 {
        vstd::arithmetic::div_mod::lemma_fundamental_div_mod(s, al);
        assert((s + (al - s % al)) == al * (s / al + 1)) by (nonlinear_arith)
            requires
                s == al * (s / al) + s % al,
        ;
        vstd::arithmetic::div_mod::lemma_mod_multiples_basic(s / al + 1, al);
        assert((al * (s / al + 1)) % al == 0) by (nonlinear_arith)
            requires
                ((s / al + 1) * al) % al == 0,
        ;
    }
}

/// A power of two is at most one more than `half`, the largest word with the
/// top bit clear.
proof fn lemma_pow2_below_half(n: usize, half: usize)
    by (bit_vector)
    requires
        n != 0 && n & ((n - 1) as usize) == 0,
        half == (!0usize) >> 1,
    ensures
        n - 1 <= half,
{
}

proof fn lemma_half_word(half: usize)
    by (bit_vector)
    requires
        half + half + 1 == !0usize,
    ensures
        half == (!0usize) >> 1,
{
}


/// `isize::MAX` is the largest word with the top bit clear, so a power of two
/// is at most one more.
proof fn lemma_pow2_minus_one_fits(n: usize)
    requires
        is_pow2(n),
    ensures
        n - 1 <= isize::MAX,
{
    crate::task::state::lemma_below_all_ones(usize::MAX);
    let half = isize::MAX as usize;
    assert(half + half + 1 == usize::MAX);
    lemma_half_word(half);
    lemma_pow2_below_half(n, half);
}

} // verus!
