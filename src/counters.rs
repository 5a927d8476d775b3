use vstd::prelude::*;

use crate::event::AllocEvent;

verus! {

/// Running totals of one thread's allocator events.
///
/// Every field grows by wrapping addition, so the difference of two snapshots
/// (see [`Counters::since`]) is exact as long as fewer than `usize::MAX + 1`
/// events, or bytes, lie between them.
#[derive(Clone, Copy, Debug, PartialEq, Eq, Structural)]
pub struct Counters {
    /// number of allocations
    pub alloc_count: usize,
    /// bytes requested by allocations
    pub alloc_size: usize,
    /// number of reallocations
    pub realloc_count: usize,
    /// bytes requested by reallocations (the new size of each block)
    pub realloc_size: usize,
    /// number of deallocations
    pub dealloc_count: usize,
    /// bytes released by deallocations
    pub dealloc_size: usize,
}

/// `after - before`, modulo `usize::MAX + 1`.
pub open spec fn diff(after: usize, before: usize) -> usize {
    after.wrapping_sub(before)
}

/// `a + b`, modulo `usize::MAX + 1`.
pub open spec fn sum(a: usize, b: usize) -> usize {
    a.wrapping_add(b)
}

impl Counters {
    /// All six totals at zero.
    pub open spec fn zero() -> Counters {
        Counters {
            alloc_count: 0,
            alloc_size: 0,
            realloc_count: 0,
            realloc_size: 0,
            dealloc_count: 0,
            dealloc_size: 0,
        }
    }

    /// Field-wise difference `self - earlier`.
    pub open spec fn delta(self, earlier: Counters) -> Counters {
        Counters {
            alloc_count: diff(self.alloc_count, earlier.alloc_count),
            alloc_size: diff(self.alloc_size, earlier.alloc_size),
            realloc_count: diff(self.realloc_count, earlier.realloc_count),
            realloc_size: diff(self.realloc_size, earlier.realloc_size),
            dealloc_count: diff(self.dealloc_count, earlier.dealloc_count),
            dealloc_size: diff(self.dealloc_size, earlier.dealloc_size),
        }
    }

    /// Field-wise sum `self + other`.
    pub open spec fn total(self, other: Counters) -> Counters {
        Counters {
            alloc_count: sum(self.alloc_count, other.alloc_count),
            alloc_size: sum(self.alloc_size, other.alloc_size),
            realloc_count: sum(self.realloc_count, other.realloc_count),
            realloc_size: sum(self.realloc_size, other.realloc_size),
            dealloc_count: sum(self.dealloc_count, other.dealloc_count),
            dealloc_size: sum(self.dealloc_size, other.dealloc_size),
        }
    }

    /// The totals after one more allocator event.
    pub open spec fn tally(self, event: AllocEvent) -> Counters {
        match event {
            AllocEvent::Alloc { size, .. } => Counters {
                alloc_count: sum(self.alloc_count, 1),
                alloc_size: sum(self.alloc_size, size),
                ..self
            },
            AllocEvent::Realloc { new_size, .. } => Counters {
                realloc_count: sum(self.realloc_count, 1),
                realloc_size: sum(self.realloc_size, new_size),
                ..self
            },
            AllocEvent::Dealloc { size, .. } => Counters {
                dealloc_count: sum(self.dealloc_count, 1),
                dealloc_size: sum(self.dealloc_size, size),
                ..self
            },
        }
    }

    /// Counters with every total at zero.
    pub fn new() -> (r: Counters)
        ensures
            r == Counters::zero(),
    {
        Counters {
            alloc_count: 0,
            alloc_size: 0,
            realloc_count: 0,
            realloc_size: 0,
            dealloc_count: 0,
            dealloc_size: 0,
        }
    }

    /// Adds one allocator event to the totals.
    pub fn record(&mut self, event: AllocEvent)
        ensures
            *final(self) == old(self).tally(event),
    {
        match event {
            AllocEvent::Alloc { size, .. } => {
                self.alloc_count = self.alloc_count.wrapping_add(1);
                self.alloc_size = self.alloc_size.wrapping_add(size);
            },
            AllocEvent::Realloc { new_size, .. } => {
                self.realloc_count = self.realloc_count.wrapping_add(1);
                self.realloc_size = self.realloc_size.wrapping_add(new_size);
            },
            AllocEvent::Dealloc { size, .. } => {
                self.dealloc_count = self.dealloc_count.wrapping_add(1);
                self.dealloc_size = self.dealloc_size.wrapping_add(size);
            },
        }
    }

    /// The three event counts: allocations, reallocations, deallocations.
    pub fn counts(&self) -> (r: (usize, usize, usize))
        ensures
            r == (self.alloc_count, self.realloc_count, self.dealloc_count),
    {
        (self.alloc_count, self.realloc_count, self.dealloc_count)
    }

    /// The three byte totals: allocated, reallocated, deallocated.
    pub fn sizes(&self) -> (r: (usize, usize, usize))
        ensures
            r == (self.alloc_size, self.realloc_size, self.dealloc_size),
    {
        (self.alloc_size, self.realloc_size, self.dealloc_size)
    }

    /// What happened between the snapshot `earlier` and this one.
    pub fn since(&self, earlier: &Counters) -> (r: Counters)
        ensures
            r == self.delta(*earlier),
    {
        Counters {
            alloc_count: self.alloc_count.wrapping_sub(earlier.alloc_count),
            alloc_size: self.alloc_size.wrapping_sub(earlier.alloc_size),
            realloc_count: self.realloc_count.wrapping_sub(earlier.realloc_count),
            realloc_size: self.realloc_size.wrapping_sub(earlier.realloc_size),
            dealloc_count: self.dealloc_count.wrapping_sub(earlier.dealloc_count),
            dealloc_size: self.dealloc_size.wrapping_sub(earlier.dealloc_size),
        }
    }

    /// The totals of two spans taken together.
    pub fn plus(&self, other: &Counters) -> (r: Counters)
        ensures
            r == self.total(*other),
    {
        Counters {
            alloc_count: self.alloc_count.wrapping_add(other.alloc_count),
            alloc_size: self.alloc_size.wrapping_add(other.alloc_size),
            realloc_count: self.realloc_count.wrapping_add(other.realloc_count),
            realloc_size: self.realloc_size.wrapping_add(other.realloc_size),
            dealloc_count: self.dealloc_count.wrapping_add(other.dealloc_count),
            dealloc_size: self.dealloc_size.wrapping_add(other.dealloc_size),
        }
    }
}

impl Default for Counters {
    fn default() -> (r: Counters)
        ensures
            r == Counters::zero(),
    {
        Counters::new()
    }
}

proof fn lemma_diff_split(a: usize, b: usize, c: usize)
    ensures
        diff(c, a) == sum(diff(b, a), diff(c, b)),
{
}

/// Two spans measured one after the other, from snapshot `a` to `b` and from
/// `b` to `c`, report disjoint deltas whose sum is the delta of one span from
/// `a` to `c`.
pub proof fn lemma_consecutive_spans_sum(a: Counters, b: Counters, c: Counters)
    ensures
        c.delta(a) == b.delta(a).total(c.delta(b)),
{
    lemma_diff_split(a.alloc_count, b.alloc_count, c.alloc_count);
    lemma_diff_split(a.alloc_size, b.alloc_size, c.alloc_size);
    lemma_diff_split(a.realloc_count, b.realloc_count, c.realloc_count);
    lemma_diff_split(a.realloc_size, b.realloc_size, c.realloc_size);
    lemma_diff_split(a.dealloc_count, b.dealloc_count, c.dealloc_count);
    lemma_diff_split(a.dealloc_size, b.dealloc_size, c.dealloc_size);
}

} // verus!
