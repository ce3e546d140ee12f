//! Arena identifiers and allocation errors shared by the slab store, the
//! Space manager and kernel object records.

use vstd::prelude::*;

verus! {

/// Slot identifier of a kernel object inside its per-type arena.
#[derive(Clone, Copy, Debug, PartialEq, Eq, Structural)]
pub struct ObjectId(pub u32);

/// Allocation failure: the backing pool or slab has no room left.
#[derive(Clone, Copy, Debug, PartialEq, Eq, Structural)]
pub enum AllocError {
    OutOfMemory,
}

} // verus!
