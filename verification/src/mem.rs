//! Sizing decisions for a host-backed allocator.
//!
//! The host's buddy allocator aligns every block to the power of two at or
//! above the block's size, so a request that needs alignment `align` can be
//! served by asking for `max(size, align)` bytes: the returned block is then
//! aligned at least to `align` at the cost of a few wasted bytes. The library
//! only computes that sizing decision; the host primitive performs the
//! allocation itself.

use vstd::prelude::*;

verus! {

/// Forwards sizing decisions to a host allocation primitive.
pub struct KernelAllocator;

impl KernelAllocator {
    /// The allocator carries no state of its own: the host owns the heap.
    pub fn new() -> Self {
        KernelAllocator
    }

    /// How many bytes to request from the host for a block of `size` bytes
    /// aligned to `align`: the larger of the two, so that the host's
    /// power-of-two alignment covers the requested alignment.
    pub fn request_size(&self, size: usize, align: usize) -> (r: usize)
        ensures
            r == if size >= align { size } else { align },
            r >= size,
            r >= align,
    {
        if size >= align {
            size
        } else {
            align
        }
    }
}

} // verus!
