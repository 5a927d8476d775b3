use vstd::prelude::*;

verus! {

/// One call into the allocator, with the layout it carried.
#[derive(Clone, Copy, Debug, PartialEq, Eq, Structural)]
pub enum AllocEvent {
    /// a fresh block of `size` bytes
    Alloc { size: usize, align: usize },
    /// a block of `old_size` bytes resized to `new_size` bytes
    Realloc { old_size: usize, align: usize, new_size: usize },
    /// a block of `size` bytes released
    Dealloc { size: usize, align: usize },
}

/// The fatal condition raised when an allocator event happens in a scope
/// whose mode forbids it; it names the offending event.
#[derive(Clone, Copy, Debug, PartialEq, Eq, Structural)]
pub struct PolicyViolation {
    pub event: AllocEvent,
}

} // verus!
