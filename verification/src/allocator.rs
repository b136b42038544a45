//! Early bump heap: a monotonic, alignment-correct allocator over a fixed
//! 1 MiB page-aligned arena.
//!
//! Allocation only moves a cursor forward; deallocation is a no-op by
//! design. An out-of-memory event is reported to a "last allocation failure"
//! sink rather than aborting; callers observe the `None` result.

use vstd::prelude::*;

use crate::frame_allocator::{lemma_align_up, spec_align_up};

verus! {

/// Size of the bump-heap arena in bytes.
pub const HEAP_SIZE: usize = 1024 * 1024;

/// Cursor state of the bump heap, together with the "last allocation
/// failure" sink. The kernel owns exactly one of these for its entire run;
/// the arena itself is a static byte range owned by the architecture layer,
/// and a successful allocation is its byte offset into that arena.
pub struct BumpAllocator {
    next: usize,
    last_error_size: usize,
    last_error_align: usize,
}

impl BumpAllocator {
    /// The bump cursor: offset of the first free arena byte.
    pub closed spec fn spec_next(self) -> usize {
        self.next
    }

    /// Size recorded by the last reported allocation failure.
    pub closed spec fn spec_last_error_size(self) -> usize {
        self.last_error_size
    }

    /// Alignment recorded by the last reported allocation failure.
    pub closed spec fn spec_last_error_align(self) -> usize {
        self.last_error_align
    }

    /// The cursor never leaves the arena.
    pub open spec fn wf(self) -> bool {
        self.spec_next() <= HEAP_SIZE
    }

    /// A fresh heap with the cursor at the arena base and no failure
    /// recorded.
    pub fn new() -> (r: BumpAllocator)
        ensures
            r.wf(),
            r.spec_next() == 0,
            r.spec_last_error_size() == 0,
            r.spec_last_error_align() == 0,
    {
        BumpAllocator { next: 0, last_error_size: 0, last_error_align: 0 }
    }

    /// Allocates `size` bytes at a multiple of `align`, bumping the cursor.
    ///
    /// The cursor is rounded up to `align` and advanced past `size` bytes;
    /// when the rounded request overruns the arena nothing changes and
    /// `None` is returned. The result is the allocation's byte offset into
    /// the arena, always a multiple of `align`; the arena itself is
    /// page-aligned, so the corresponding pointer is also aligned for every
    /// power-of-two `align` up to one page.
    pub fn allocate(&mut self, size: usize, align: usize) -> (r: Option<usize>)
        requires
            old(self).wf(),
            1 <= align,
        ensures
            final(self).wf(),
            final(self).spec_last_error_size() == old(self).spec_last_error_size(),
            final(self).spec_last_error_align() == old(self).spec_last_error_align(),
            r is Some <==> spec_align_up(old(self).spec_next() as int, align as int) + size
                <= HEAP_SIZE,
            r matches Some(offset) ==> {
                &&& offset == spec_align_up(old(self).spec_next() as int, align as int)
                &&& offset % align == 0
                &&& old(self).spec_next() <= offset < old(self).spec_next() + align
                &&& offset + size <= HEAP_SIZE
                &&& final(self).spec_next() == offset + size
            },
            r is None ==> final(self).spec_next() == old(self).spec_next(),
    {
        proof {
            if self.next < align {
                vstd::arithmetic::div_mod::lemma_small_mod(self.next as nat, align as nat);
            }
            lemma_align_up(self.next as int, align as int);
        }
        let rem = self.next % align;
        let aligned = if rem == 0 {
            self.next
        } else {
            self.next + (align - rem)
        };
        if size > HEAP_SIZE || aligned > HEAP_SIZE - size {
            return None;
        }
        self.next = aligned + size;
        Some(aligned)
    }

    /// Deallocation is a no-op by design: the arena is reclaimed only by
    /// `init` in a test harness.
    pub fn dealloc(&self, _offset: usize, _size: usize, _align: usize) {
    }
}

/// Returns the bump cursor to the arena base. Intended for test harnesses
/// only: resetting after any allocation hands out overlapping memory.
pub fn init(heap: &mut BumpAllocator)
    ensures
        final(heap).wf(),
        final(heap).spec_next() == 0,
        final(heap).spec_last_error_size() == old(heap).spec_last_error_size(),
        final(heap).spec_last_error_align() == old(heap).spec_last_error_align(),
{
    heap.next = 0;
}

/// Reports an out-of-memory event to the "last allocation failure" sink.
pub fn record_alloc_error(heap: &mut BumpAllocator, size: usize, align: usize)
    ensures
        final(heap).spec_next() == old(heap).spec_next(),
        final(heap).wf() == old(heap).wf(),
        final(heap).spec_last_error_size() == size,
        final(heap).spec_last_error_align() == align,
{
    heap.last_error_size = size;
    heap.last_error_align = align;
}

/// Reads the last reported allocation failure as `(size, align)`.
pub fn last_alloc_error(heap: &BumpAllocator) -> (r: (usize, usize))
    ensures
        r.0 == heap.spec_last_error_size(),
        r.1 == heap.spec_last_error_align(),
{
    (heap.last_error_size, heap.last_error_align)
}

} // verus!
