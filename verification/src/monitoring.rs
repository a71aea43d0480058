//! Byte-counting instrumentation used to observe allocator activity, for
//! example to check that a container performs no allocation on its hot path.
//!
//! `CountingAllocator` keeps running totals of bytes allocated and
//! deallocated; `ScopedAllocCounter` snapshots both totals on entry to a
//! measurement scope and reports the deltas at its end. The counter is an
//! explicit, injectable component: every reader and writer is handed the
//! counter it works on, so independent measurement scopes do not interfere.

use vstd::prelude::*;

verus! {

/// A simple counter that tracks the number of bytes allocated and
/// deallocated. The totals wrap around on overflow, as a long-lived
/// process-wide tally must.
pub struct CountingAllocator {
    allocated: usize,
    deallocated: usize,
}

impl CountingAllocator {
    /// Total bytes recorded as allocated so far.
    pub closed spec fn spec_allocated(&self) -> usize {
        self.allocated
    }

    /// Total bytes recorded as deallocated so far.
    pub closed spec fn spec_deallocated(&self) -> usize {
        self.deallocated
    }

    /// A fresh counter with both totals at zero.
    pub fn new() -> (c: Self)
        ensures
            c.spec_allocated() == 0,
            c.spec_deallocated() == 0,
    {
        CountingAllocator { allocated: 0, deallocated: 0 }
    }

    pub fn get_allocated(&self) -> (n: usize)
        ensures
            n == self.spec_allocated(),
    {
        self.allocated
    }

    pub fn get_deallocated(&self) -> (n: usize)
        ensures
            n == self.spec_deallocated(),
    {
        self.deallocated
    }

    /// Resets both totals to zero, the boundary between measurement scopes.
    pub fn reset(&mut self)
        ensures
            final(self).spec_allocated() == 0,
            final(self).spec_deallocated() == 0,
    {
        self.allocated = 0;
        self.deallocated = 0;
    }

    /// Adds a successful allocation of `bytes` bytes to the running total,
    /// wrapping on overflow.
    pub fn record_alloc(&mut self, bytes: usize)
        ensures
            final(self).spec_allocated() == vstd::wrapping::usize_specs::wrapping_add(
                old(self).spec_allocated(),
                bytes,
            ),
            final(self).spec_deallocated() == old(self).spec_deallocated(),
    {
        self.allocated = self.allocated.wrapping_add(bytes);
    }

    /// Adds a deallocation of `bytes` bytes to the running total, wrapping
    /// on overflow.
    pub fn record_dealloc(&mut self, bytes: usize)
        ensures
            final(self).spec_deallocated() == vstd::wrapping::usize_specs::wrapping_add(
                old(self).spec_deallocated(),
                bytes,
            ),
            final(self).spec_allocated() == old(self).spec_allocated(),
    {
        self.deallocated = self.deallocated.wrapping_add(bytes);
    }
}

/// A snapshot of a `CountingAllocator` taken at the start of a measurement
/// scope, from which the bytes allocated and deallocated within the scope
/// are read off at its end.
pub struct ScopedAllocCounter {
    bf_allocated: usize,
    bf_deallocated: usize,
}

impl ScopedAllocCounter {
    /// Bytes the watched counter had allocated when the scope began.
    pub closed spec fn spec_allocated_at_start(&self) -> usize {
        self.bf_allocated
    }

    /// Bytes the watched counter had deallocated when the scope began.
    pub closed spec fn spec_deallocated_at_start(&self) -> usize {
        self.bf_deallocated
    }

    /// Opens a measurement scope by snapshotting both totals of `counter`.
    pub fn new(counter: &CountingAllocator) -> (s: Self)
        ensures
            s.spec_allocated_at_start() == counter.spec_allocated(),
            s.spec_deallocated_at_start() == counter.spec_deallocated(),
    {
        ScopedAllocCounter {
            bf_allocated: counter.get_allocated(),
            bf_deallocated: counter.get_deallocated(),
        }
    }

    pub fn start_allocated(&self) -> (n: usize)
        ensures
            n == self.spec_allocated_at_start(),
    {
        self.bf_allocated
    }

    pub fn start_deallocated(&self) -> (n: usize)
        ensures
            n == self.spec_deallocated_at_start(),
    {
        self.bf_deallocated
    }

    /// Bytes allocated since the scope began. The counter must not have
    /// been reset within the scope.
    pub fn allocated_in_scope(&self, counter: &CountingAllocator) -> (n: usize)
        requires
            self.spec_allocated_at_start() <= counter.spec_allocated(),
        ensures
            n == counter.spec_allocated() - self.spec_allocated_at_start(),
    {
        counter.get_allocated() - self.bf_allocated
    }

    /// Bytes deallocated since the scope began. The counter must not have
    /// been reset within the scope.
    pub fn deallocated_in_scope(&self, counter: &CountingAllocator) -> (n: usize)
        requires
            self.spec_deallocated_at_start() <= counter.spec_deallocated(),
        ensures
            n == counter.spec_deallocated() - self.spec_deallocated_at_start(),
    {
        counter.get_deallocated() - self.bf_deallocated
    }
}

} // verus!
