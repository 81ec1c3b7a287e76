//! The hash-rate counter: a monotonically increasing statistic, incremented
//! in coarse batches by concurrent workers and read to estimate throughput.
//! It is never consulted for matching correctness, and no contract here
//! speaks of its value: concurrent increments make the value observed at any
//! moment depend on scheduling.

use vstd::prelude::*;

use core::sync::atomic::AtomicU64;
use core::sync::atomic::Ordering;

verus! {

/// A session-owned counter of hashes computed so far. Constructed fresh per
/// search invocation (or shared across several), updated only through atomic
/// addition with relaxed ordering: it is a statistic, not a synchronization
/// point.
pub struct HashCounter {
    count: AtomicU64,
}

impl HashCounter {
    /// A fresh counter, starting at zero.
    pub fn new() -> HashCounter {
        HashCounter { count: AtomicU64::new(0) }
    }

    /// Adds `n` to the counter. Workers call this once per sampling batch
    /// rather than once per candidate, to keep contention low.
    pub fn add(&self, n: u64) {
        let _prev: u64 = self.count.fetch_add(n, Ordering::Relaxed);
    }

    /// The count accumulated so far.
    pub fn load(&self) -> u64 {
        self.count.load(Ordering::Relaxed)
    }

    /// Resets the counter to zero, for isolated measurement runs.
    pub fn reset(&self) {
        self.count.store(0, Ordering::Relaxed);
    }
}

} // verus!
