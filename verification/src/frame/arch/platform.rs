//! Platform memory map (QEMU `virt` / HVF board).

use vstd::prelude::*;

verus! {

/// GIC distributor base: the first device block in the kernel map.
pub const GIC_DIST_BASE: usize = 0x0800_0000;

} // verus!
