use std::sync::atomic::{AtomicU32, Ordering};
use vstd::prelude::*;

verus! {

/// Cached size to prevent duplicate size calculation in serialization.
///
/// The cell is a scratch slot for the encoder: a size pass stores the length it
/// computed, and the write pass that follows reads it back instead of
/// recomputing it. Loads and stores are relaxed atomics, so encoders running
/// in parallel may share a cell; a stale value only costs a recomputation.
///
/// A `CachedSize` is equal to every other `CachedSize`, whatever it holds, so
/// that it takes no part in the equality or the hash of the value owning it.
#[derive(Debug)]
pub struct CachedSize {
    size: AtomicU32,
}

impl CachedSize {
    /// Creates a new `CachedSize` holding 0.
    #[inline]
    pub fn new() -> (r: Self) {
        CachedSize { size: AtomicU32::new(0) }
    }

    /// Gets the cached size: 0 if it was never set.
    #[inline]
    pub fn get(&self) -> u32 {
        self.size.load(Ordering::Relaxed)
    }

    /// Sets the cached size, visible to every observer at once.
    #[inline]
    pub fn set(&self, size: u32) {
        self.size.store(size, Ordering::Relaxed);
    }
}

impl Default for CachedSize {
    fn default() -> (r: Self) {
        CachedSize::new()
    }
}

impl Clone for CachedSize {
    /// Snapshots the current size into a fresh, independent cell.
    fn clone(&self) -> (r: Self) {
        CachedSize { size: AtomicU32::new(self.get()) }
    }
}

impl PartialEq for CachedSize {
    fn eq(&self, _other: &CachedSize) -> (r: bool)
        ensures
            r,
    {
        true
    }
}

impl vstd::std_specs::cmp::PartialEqSpecImpl for CachedSize {
    open spec fn obeys_eq_spec() -> bool {
        true
    }

    open spec fn eq_spec(&self, other: &CachedSize) -> bool {
        true
    }
}

impl Eq for CachedSize {
}

impl std::hash::Hash for CachedSize {
    /// Feeds nothing to the hasher: the cache is not part of its owner's identity.
    fn hash<H: std::hash::Hasher>(&self, _state: &mut H) {
    }
}

} // verus!
