//! The adapter between the allocation interface of the language and the
//! native allocator: which native operation, if any, serves a request.

use vstd::prelude::*;

verus! {

/// The handle through which a program uses the native allocator.
#[derive(Debug, Copy, Clone)]
pub struct SnMalloc;

/// How a request for memory is served.
#[derive(Debug, Clone, Copy, PartialEq, Eq, Structural)]
pub enum AllocStep {
    /// Nothing is allocated: the request is for no bytes, and the address
    /// handed out is the alignment itself.
    Dangling { address: usize },
    /// The native allocator is asked for `size` bytes at `align`.
    Native { align: usize, size: usize },
}

/// How a request to resize a block is served.
#[derive(Debug, Clone, Copy, PartialEq, Eq, Structural)]
pub enum ReallocStep {
    /// The block shrinks to nothing: it is released if it held any bytes,
    /// and the address handed out is the alignment itself.
    Release { release: bool, address: usize },
    /// The block held no bytes: the native allocator is asked for a new one.
    Fresh { align: usize, size: usize },
    /// The native allocator resizes the block.
    Resize { align: usize, old_size: usize, new_size: usize },
}

/// How a request for `size` bytes at `align` is served.
pub open spec fn alloc_step_of(size: usize, align: usize) -> AllocStep {
    if size == 0 {
        AllocStep::Dangling { address: align }
    } else {
        AllocStep::Native { align, size }
    }
}

/// How a request to resize a block of `size` bytes at `align` to `new_size`
/// bytes is served.
pub open spec fn realloc_step_of(size: usize, align: usize, new_size: usize) -> ReallocStep {
    if new_size == 0 {
        ReallocStep::Release { release: size != 0, address: align }
    } else if size == 0 {
        ReallocStep::Fresh { align, size: new_size }
    } else {
        ReallocStep::Resize { align, old_size: size, new_size }
    }
}

impl SnMalloc {
    /// The handle.
    #[inline(always)]
    pub fn new() -> (r: Self)
        ensures
            r == SnMalloc,
    {
        SnMalloc
    }

    /// How a request for `size` bytes at `align` is served, zeroed or not.
    pub fn alloc_step(&self, size: usize, align: usize) -> (r: AllocStep)
        ensures
            r == alloc_step_of(size, align),
    {
        if size == 0 {
            AllocStep::Dangling { address: align }
        } else {
            AllocStep::Native { align, size }
        }
    }

    /// Whether giving back a block of `size` bytes releases native memory:
    /// a block of no bytes was never allocated.
    pub fn dealloc_step(&self, size: usize) -> (release: bool)
        ensures
            release == (size != 0),
    {
        size != 0
    }

    /// How a request to resize a block of `size` bytes at `align` to
    /// `new_size` bytes is served.
    pub fn realloc_step(&self, size: usize, align: usize, new_size: usize) -> (r: ReallocStep)
        ensures
            r == realloc_step_of(size, align, new_size),
    {
        if new_size == 0 {
            ReallocStep::Release { release: self.dealloc_step(size), address: align }
        } else if size == 0 {
            ReallocStep::Fresh { align, size: new_size }
        } else {
            ReallocStep::Resize { align, old_size: size, new_size }
        }
    }
}

} // verus!
