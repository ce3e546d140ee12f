//! Time: the compute kernel object, as its arena holds it.
//!
//! A Time grants compute units to the Observers that hold it; an Observer's
//! scheduler reads the sum of the units of the Times it holds.

use core::sync::atomic::AtomicU64;
use vstd::prelude::*;

verus! {

/// A Time record.
pub struct Time {
    /// Compute units this Time grants.
    pub compute_units: u32,
    /// Outstanding capability references.
    pub refcount: u32,
    /// Revocation generation counter.
    pub generation: AtomicU64,
}

impl Default for Time {
    /// An empty Time record: no units, no references, as a freshly zeroed
    /// arena slot holds it.
    fn default() -> (time: Time)
        ensures
            time.compute_units == 0,
            time.refcount == 0,
    {
        Time { compute_units: 0, refcount: 0, generation: AtomicU64::new(0) }
    }
}

} // verus!
