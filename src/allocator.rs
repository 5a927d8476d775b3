use vstd::prelude::*;

verus! {

/// An allocator that reports every allocation, reallocation and deallocation
/// to the thread's [`AllocState`](crate::AllocState), and leaves the memory
/// itself to the backing allocator it holds.
pub struct AllocCounter<A>(pub A);

impl<A> AllocCounter<A> {
    /// Wraps `backing`.
    pub fn new(backing: A) -> (r: AllocCounter<A>)
        ensures
            r.0 == backing,
    {
        AllocCounter(backing)
    }

    /// The backing allocator.
    pub fn backing(&self) -> (r: &A)
        ensures
            *r == self.0,
    {
        &self.0
    }
}

} // verus!
