//! Buffers that can be passed to io-uring operations.
use vstd::prelude::*;
use vstd::string::StringSliceAdditionalSpecFns;

verus! {

/// A buffer that can be passed to io-uring operations by ownership.
///
/// `bytes_init` is the number of initialized bytes; `bytes_total` the size of
/// the buffer including uninitialized memory, never less than `bytes_init`.
pub trait IoBuf: Sized {
    /// The number of initialized bytes.
    spec fn init_len(&self) -> nat;

    /// The initialized bytes.
    spec fn init_bytes(&self) -> Seq<u8>;

    /// The initialized bytes, as a slice.
    fn init_slice(&self) -> (b: &[u8])
        ensures
            b@ == self.init_bytes(),
            b@.len() == self.init_len(),
    ;

    /// Number of initialized bytes. For `Vec`, this is `len()`.
    fn bytes_init(&self) -> (n: usize)
        ensures
            n == self.init_len(),
    ;

    /// Total size of the buffer, including uninitialized memory. For `Vec`,
    /// this is `capacity()`.
    fn bytes_total(&self) -> (n: usize)
        ensures
            self.init_len() <= n,
    ;
}

/// Calls `Vec::capacity`; std documents that the capacity is never below the
/// length. What capacity the allocator gave is not stated further.
#[verifier::external_body]
fn vec_capacity<T>(v: &Vec<T>) -> (c: usize)
    ensures
        v@.len() <= c,
{
    v.capacity()
}

impl IoBuf for Vec<u8> {
    open spec fn init_len(&self) -> nat {
        self@.len()
    }

    open spec fn init_bytes(&self) -> Seq<u8> {
        self@
    }

    fn init_slice(&self) -> (b: &[u8]) {
        self.as_slice()
    }

    fn bytes_init(&self) -> (n: usize) {
        self.len()
    }

    fn bytes_total(&self) -> (n: usize) {
        vec_capacity(self)
    }
}

impl IoBuf for &'static [u8] {
    open spec fn init_len(&self) -> nat {
        (*self)@.len()
    }

    open spec fn init_bytes(&self) -> Seq<u8> {
        (*self)@
    }

    fn init_slice(&self) -> (b: &[u8]) {
        *self
    }

    fn bytes_init(&self) -> (n: usize) {
        self.len()
    }

    fn bytes_total(&self) -> (n: usize)
        ensures
            n == self.init_len(),
    {
        self.bytes_init()
    }
}

impl IoBuf for &'static str {
    open spec fn init_len(&self) -> nat {
        (*self).spec_bytes().len()
    }

    open spec fn init_bytes(&self) -> Seq<u8> {
        (*self).spec_bytes()
    }

    fn init_slice(&self) -> (b: &[u8]) {
        self.as_bytes()
    }

    fn bytes_init(&self) -> (n: usize) {
        self.as_bytes().len()
    }

    fn bytes_total(&self) -> (n: usize)
        ensures
            n == self.init_len(),
    {
        self.bytes_init()
    }
}

/// The initialized bytes of a buffer.
pub fn deref<B: IoBuf>(buf: &B) -> (b: &[u8])
    ensures
        b@ == buf.init_bytes(),
        b@.len() == buf.init_len(),
{
    buf.init_slice()
}

/// One end of a range of offsets, as `RangeBounds::start_bound` and
/// `end_bound` give it.
#[derive(Debug, Clone, Copy, PartialEq, Eq)]
pub enum RangeBound {
    Included(usize),
    Excluded(usize),
    Unbounded,
}

/// The first offset a range starts at.
pub open spec fn range_begin(start: RangeBound) -> int {
    match start {
        RangeBound::Included(n) => n as int,
        RangeBound::Excluded(n) => n + 1,
        RangeBound::Unbounded => 0,
    }
}

/// The offset a range ends before, in a buffer of `size` bytes.
pub open spec fn range_end(end: RangeBound, size: usize) -> int {
    match end {
        RangeBound::Included(n) => n + 1,
        RangeBound::Excluded(n) => n as int,
        RangeBound::Unbounded => size as int,
    }
}

/// Turns the bounds of a range into a half-open `(begin, end)` pair of offsets
/// into a buffer of `size` bytes. The successor of an excluded start or of an
/// included end must fit in a `usize`.
pub fn parse_range(start: RangeBound, end: RangeBound, size: usize) -> (r: (usize, usize))
    requires
        range_begin(start) <= usize::MAX,
        range_end(end, size) <= usize::MAX,
    ensures
        r.0 == range_begin(start),
        r.1 == range_end(end, size),
{
    let begin = match start {
        RangeBound::Included(n) => n,
        RangeBound::Excluded(n) => n + 1,
        RangeBound::Unbounded => 0,
    };
    let end = match end {
        RangeBound::Included(n) => n + 1,
        RangeBound::Excluded(n) => n,
        RangeBound::Unbounded => size,
    };
    (begin, end)
}

} // verus!
