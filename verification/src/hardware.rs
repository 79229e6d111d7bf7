//! Counters, branch hints and memory barriers for the hot path.
//!
//! The counter counts with wraparound, as a fetch-and-add register does.
//! Branch hints pass their condition through unchanged. The barriers call
//! straight into the processor-ordering fences; nothing can be stated of a
//! fence's effect here, so their contracts say nothing.

use vstd::prelude::*;

verus! {

/// Typical CPU cache line size in bytes.
pub const CACHE_LINE_SIZE: usize = 64;

/// A counter with fetch-and-add semantics: incrementing returns the old
/// value and wraps at the numeric bound.
pub struct CacheAlignedCounter {
    value: u64,
}

impl CacheAlignedCounter {
    /// The current count.
    pub closed spec fn spec_value(&self) -> u64 {
        self.value
    }

    /// A counter starting at `initial`.
    pub fn new(initial: u64) -> (r: Self)
        ensures
            r.spec_value() == initial,
    {
        CacheAlignedCounter { value: initial }
    }

    /// Adds one, wrapping at the numeric bound, and returns the old count.
    pub fn increment(&mut self) -> (r: u64)
        ensures
            r == old(self).spec_value(),
            old(self).spec_value() < u64::MAX ==> final(self).spec_value() == old(
                self,
            ).spec_value() + 1,
            old(self).spec_value() == u64::MAX ==> final(self).spec_value() == 0,
    {
        let prev = self.value;
        self.value = self.value.wrapping_add(1);
        prev
    }

    /// Reads the count.
    pub fn load(&self) -> (r: u64)
        ensures
            r == self.spec_value(),
    {
        self.value
    }

    /// Overwrites the count.
    pub fn store(&mut self, val: u64)
        ensures
            final(self).spec_value() == val,
    {
        self.value = val;
    }
}

/// Branch hint helpers: each returns its condition unchanged and only
/// shapes code placement.
pub struct BranchOptimizer;

impl BranchOptimizer {
    /// Hint that the condition is usually true.
    pub fn likely(condition: bool) -> (r: bool)
        ensures
            r == condition,
    {
        condition
    }

    /// Hint that the condition is usually false.
    pub fn unlikely(condition: bool) -> (r: bool)
        ensures
            r == condition,
    {
        condition
    }
}

/// Memory barrier helpers.
pub struct MemoryBarriers;

impl MemoryBarriers {
    /// Relies on `std::sync::atomic::compiler_fence`: a compiler-only
    /// barrier against reordering.
    #[verifier::external_body]
    pub fn compiler_barrier() {
        std::sync::atomic::compiler_fence(std::sync::atomic::Ordering::SeqCst);
    }

    /// Relies on `std::sync::atomic::fence`: an acquire barrier.
    #[verifier::external_body]
    pub fn memory_barrier_light() {
        std::sync::atomic::fence(std::sync::atomic::Ordering::Acquire);
    }

    /// Relies on `std::sync::atomic::fence`: a sequentially consistent
    /// barrier.
    #[verifier::external_body]
    pub fn memory_barrier_heavy() {
        std::sync::atomic::fence(std::sync::atomic::Ordering::SeqCst);
    }

    /// Relies on `std::sync::atomic::fence`: a release barrier.
    #[verifier::external_body]
    pub fn store_barrier() {
        std::sync::atomic::fence(std::sync::atomic::Ordering::Release);
    }

    /// Relies on `std::sync::atomic::fence`: an acquire barrier.
    #[verifier::external_body]
    pub fn load_barrier() {
        std::sync::atomic::fence(std::sync::atomic::Ordering::Acquire);
    }
}

} // verus!
