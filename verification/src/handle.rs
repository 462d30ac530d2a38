//! Stream handles and their allocator.

use vstd::prelude::*;

verus! {

/// The opaque handle of an open capture stream. Zero is never a valid handle.
pub type StreamId = u64;

/// Issues stream handles in increasing order, starting at one.
pub struct HandleAllocator {
    next: u64,
    started_over: Ghost<bool>,
}

impl HandleAllocator {
    /// The handle that the next call of [`HandleAllocator::next`] issues.
    pub closed spec fn upcoming(&self) -> u64 {
        self.next
    }

    /// Whether the count has run through all 2^64 values and started over.
    /// Until then no handle has been issued twice and none is zero.
    pub closed spec fn started_over(&self) -> bool {
        self.started_over@
    }

    /// Makes an allocator whose first handle is one.
    pub fn new() -> (allocator: Self)
        ensures
            allocator.upcoming() == 1,
            !allocator.started_over(),
    {
        HandleAllocator { next: 1, started_over: Ghost(false) }
    }

    /// Issues the upcoming handle. The handle after it is one greater; only
    /// after 2^64 - 1 handles does the count start over at zero.
    pub fn next(&mut self) -> (handle: StreamId)
        ensures
            handle == old(self).upcoming(),
            final(self).upcoming() == if old(self).upcoming() == u64::MAX {
                0
            } else {
                old(self).upcoming() + 1
            },
            final(self).started_over() == (old(self).started_over() || old(self).upcoming()
                == u64::MAX),
    {
        let handle: u64 = self.next;
        self.next = handle.wrapping_add(1);
        proof {
            self.started_over@ = self.started_over@ || handle == u64::MAX;
        }
        handle
    }
}

} // verus!
