//! Hardware-facing building blocks: page tables, MMU register encodings,
//! the slab store and lock ordering.

use vstd::prelude::*;

pub mod arch;
pub mod capabilities;
pub mod cores;
pub mod fields;
pub mod lock;
pub mod mapping;
pub mod page_slab;
pub mod slab;

verus! {

/// Base of the kernel linear map in TTBR1 (T1SZ=28: the top 64 GiB of
/// the address space).
pub const KERNEL_VIRT_OFFSET: usize = 0xFFFF_FFF0_0000_0000u64 as usize;

/// Kernel virtual address of a physical address in the TTBR1 linear map.
pub fn phys_to_virt(pa: usize) -> (va: usize)
    requires
        pa + KERNEL_VIRT_OFFSET <= usize::MAX,
    ensures
        va == pa + KERNEL_VIRT_OFFSET,
{
    pa + KERNEL_VIRT_OFFSET
}

/// Physical address of a kernel virtual address in the TTBR1 linear map.
pub fn virt_to_phys(va: usize) -> (pa: usize)
    requires
        va >= KERNEL_VIRT_OFFSET,
    ensures
        pa == va - KERNEL_VIRT_OFFSET,
{
    va - KERNEL_VIRT_OFFSET
}

/// Translating a physical address into the linear map and back gives the
/// address again, and every linear-map address lies above the user range.
pub proof fn law_linear_map_roundtrip(pa: usize)
    requires
        pa + KERNEL_VIRT_OFFSET <= usize::MAX,
    ensures
        pa + KERNEL_VIRT_OFFSET >= KERNEL_VIRT_OFFSET,
        (pa + KERNEL_VIRT_OFFSET) - KERNEL_VIRT_OFFSET == pa,
{
}

} // verus!
