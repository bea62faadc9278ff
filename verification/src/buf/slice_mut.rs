//! An owned, mutable view of a range of a buffer.
use vstd::prelude::*;
use crate::buf::io_buf::{deref, IoBuf};

verus! {

/// Whether a range ending at `end` fits in a buffer of `total` bytes.
pub open spec fn ends_within(end: usize, total: usize) -> bool {
    end <= total
}

/// Two slices with the same range.
pub open spec fn same_range<T>(a: SliceMut<T>, b: SliceMut<T>) -> bool {
    a.begin_at() == b.begin_at() && a.end_at() == b.end_at()
}

/// A buffer together with the range `begin..end` of it that an operation uses.
pub struct SliceMut<T> {
    buf: T,
    begin: usize,
    end: usize,
}

impl<T> SliceMut<T> {
    /// The underlying buffer.
    pub closed spec fn buffer(&self) -> T {
        self.buf
    }

    /// Offset at which the slice starts.
    pub closed spec fn begin_at(&self) -> usize {
        self.begin
    }

    /// Offset at which the slice ends.
    pub closed spec fn end_at(&self) -> usize {
        self.end
    }

    /// A slice of `buf` from `begin` to `end`, without checking the range;
    /// the caller vouches that `begin` is initialized, `begin <= end` and `end`
    /// is within the buffer.
    pub fn new_unchecked(buf: T, begin: usize, end: usize) -> (r: SliceMut<T>)
        ensures
            r.buffer() == buf,
            r.begin_at() == begin,
            r.end_at() == end,
    {
        SliceMut { buf, begin, end }
    }

    /// Offset in the underlying buffer at which this slice starts.
    pub fn begin(&self) -> (r: usize)
        ensures
            r == self.begin_at(),
    {
        self.begin
    }

    /// Offset in the underlying buffer at which this slice ends.
    pub fn end(&self) -> (r: usize)
        ensures
            r == self.end_at(),
    {
        self.end
    }

    /// The underlying buffer. This escapes the slice's view.
    pub fn get_ref(&self) -> (r: &T)
        ensures
            *r == self.buffer(),
    {
        &self.buf
    }

    /// The underlying buffer, mutably. This escapes the slice's view; the
    /// range stays as it is.
    pub fn get_mut(&mut self) -> (r: &mut T)
        ensures
            *r == old(self).buffer(),
            final(self).buffer() == *final(r),
            final(self).begin_at() == old(self).begin_at(),
            final(self).end_at() == old(self).end_at(),
    {
        &mut self.buf
    }

    /// Unwraps the slice, returning the underlying buffer.
    pub fn into_inner(self) -> (r: T)
        ensures
            r == self.buffer(),
    {
        self.buf
    }
}

impl<T: IoBuf> SliceMut<T> {
    /// A slice of `buf` from `begin` to `end`, given the buffer's total size
    /// `total`: `Some` exactly when `end <= total`. The start must lie within
    /// the initialized bytes and not after the end.
    pub fn new_within(buf: T, begin: usize, end: usize, total: usize) -> (r: Option<SliceMut<T>>)
        requires
            begin <= buf.init_len(),
            begin <= end,
        ensures
            r is Some <==> end <= total,
            r is Some ==> r->0.buffer() == buf && r->0.begin_at() == begin && r->0.end_at() == end,
    {
        if end <= total {
            Some(SliceMut { buf, begin, end })
        } else {
            None
        }
    }

    /// A slice of `buf` from `begin` to `end`. The start must lie within the
    /// initialized bytes (`begin <= buf.bytes_init()`) and not after the end;
    /// the result is `Some` exactly when `end <= buf.bytes_total()`. The total
    /// size for a `Vec` is the capacity the allocator gave, which is at least
    /// the initialized length, so a range that ends within the initialized
    /// bytes always fits.
    pub fn new(buf: T, begin: usize, end: usize) -> (r: Option<SliceMut<T>>)
        requires
            begin <= buf.init_len(),
            begin <= end,
        ensures
            exists|total: usize|
                call_ensures(T::bytes_total, (&buf,), total) && total >= buf.init_len() && (r is Some
                    <==> #[trigger] ends_within(end, total)),
            r is Some ==> r->0.buffer() == buf && r->0.begin_at() == begin && r->0.end_at() == end,
            r is Some ==> r->0.begin_at() <= r->0.end_at(),
            end <= buf.init_len() ==> r is Some,
    {
        let bytes_total = T::bytes_total;
        let total = bytes_total(&buf);
        let r = Self::new_within(buf, begin, end, total);
        assert(ends_within(end, total) == (end <= total));
        r
    }

    /// Number of initialized bytes in the slice: those of the buffer that lie
    /// in `begin..end`. The buffer must not have been shrunk below `begin`
    /// through `get_mut`.
    pub fn bytes_init(&self) -> (n: usize)
        requires
            self.begin_at() <= self.end_at(),
            self.begin_at() <= self.buffer().init_len(),
        ensures
            n == if self.end_at() <= self.buffer().init_len() {
                self.end_at() - self.begin_at()
            } else {
                self.buffer().init_len() - self.begin_at()
            },
    {
        let len = self.buf.bytes_init();
        let end = if self.end < len {
            self.end
        } else {
            len
        };
        end - self.begin
    }

    /// The initialized bytes of the buffer that lie in `begin..end`. The
    /// buffer must not have been shrunk below `begin` through `get_mut`.
    pub fn as_bytes(&self) -> (b: &[u8])
        requires
            self.begin_at() <= self.end_at(),
            self.begin_at() <= self.buffer().init_len(),
        ensures
            b@ == self.buffer().init_bytes().subrange(
                self.begin_at() as int,
                if self.end_at() <= self.buffer().init_len() {
                    self.end_at() as int
                } else {
                    self.buffer().init_len() as int
                },
            ),
    {
        let bytes = deref(&self.buf);
        let end = if self.end < bytes.len() {
            self.end
        } else {
            bytes.len()
        };
        vstd::slice::slice_subrange(bytes, self.begin, end)
    }

    /// Size of the slice: `end - begin`. A slice made by `new` has
    /// `begin <= end`, and nothing changes its range.
    pub fn bytes_total(&self) -> (n: usize)
        requires
            self.begin_at() <= self.end_at(),
        ensures
            n == self.end_at() - self.begin_at(),
    {
        self.end - self.begin
    }
}

/// However often the buffer is changed through `get_mut` (each step keeping
/// the range, as `get_mut` ensures), the slice keeps the offsets it was made
/// with.
pub proof fn lemma_range_survives_mutations<T>(steps: Seq<SliceMut<T>>)
    requires
        steps.len() >= 1,
        forall|i: int| 0 <= i < steps.len() - 1 ==> #[trigger] same_range(steps[i], steps[i + 1]),
    ensures
        same_range(steps[0], steps[steps.len() - 1]),
        steps.last().begin_at() == steps[0].begin_at(),
        steps.last().end_at() == steps[0].end_at(),
    decreases steps.len(),
{
    if steps.len() > 1 {
        let rest = steps.drop_last();
        assert forall|i: int| 0 <= i < rest.len() - 1 implies #[trigger] same_range(
            rest[i],
            rest[i + 1],
        ) by {
            assert(rest[i] == steps[i] && rest[i + 1] == steps[i + 1]);
            assert(same_range(steps[i], steps[i + 1]));
        }
        lemma_range_survives_mutations(rest);
        let k = steps.len() - 2;
        assert(same_range(steps[k], steps[k + 1]));
        assert(rest[rest.len() - 1] == steps[k]);
    }
}

} // verus!
