//! MMU register encodings and the kernel identity map with W^X permissions.
//!
//! The kernel table is two-level (L2 root → L3 for the kernel block) with
//! the 16 KiB granule:
//!
//! - **L2 root** (2048 entries, each covers 32 MiB):
//!   - device MMIO blocks (GIC, UART, virtio)
//!   - a table descriptor → L3 table for the kernel's 32 MiB block
//!   - the remaining RAM blocks (normal, RW)
//!
//! - **L3 kernel** (2048 entries, each covers 16 KiB):
//!   - Pages before the kernel: RW (DTB, pre-kernel RAM)
//!   - Kernel text: RO + executable (W^X: writable ⊕ executable)
//!   - Kernel rodata: RO, no execute
//!   - Kernel data/bss/stack and the root pool beyond: RW, no execute
//!
//! Memory attributes (MAIR_EL1): index 0 Device-nGnRnE (0x00), index 1
//! Normal Inner/Outer Write-Back Write-Allocate (0xFF).
//!
//! TTBR split: the kernel lives in TTBR1 (upper half, T1SZ=28, 36-bit,
//! 2-level), each Observer's user space in TTBR0 (T0SZ=17, 47-bit,
//! 3-level L1→L2→L3).

use super::page_table::l2_slot;
use super::platform;
pub use crate::frame::{KERNEL_VIRT_OFFSET, phys_to_virt, virt_to_phys};
use vstd::prelude::*;

verus! {

// ── Descriptor constants ──────────────────────────────────────────

/// Descriptor is valid.
pub const VALID: u64 = 0x1;
/// L2 table descriptor.
pub const TABLE: u64 = 0x2;
/// L3 page descriptor (same bit position as [`TABLE`]).
pub const PAGE: u64 = 0x2;
/// Access flag.
pub const AF: u64 = 0x400;
/// Inner Shareable.
pub const SH_ISH: u64 = 0x300;
/// AP = 0b00: read/write at EL1 only.
pub const AP_RW_EL1: u64 = 0x0;
/// AP = 0b10: read-only at EL1 only.
pub const AP_RO_EL1: u64 = 0x80;
/// Privileged execute-never.
pub const PXN: u64 = 0x0020_0000_0000_0000;
/// Unprivileged execute-never.
pub const UXN: u64 = 0x0040_0000_0000_0000;
/// MAIR index 0: Device-nGnRnE.
pub const ATTR_DEVICE: u64 = 0x0;
/// MAIR index 1: Normal memory.
pub const ATTR_NORMAL: u64 = 0x4;

/// MAIR encoding of Device-nGnRnE.
pub const MAIR_DEVICE_NGNRNE: u64 = 0x00;
/// MAIR encoding of Normal Inner/Outer Write-Back, Write-Allocate.
pub const MAIR_NORMAL_WB: u64 = 0xFF;

/// Page size: 16 KiB granule.
pub const PAGE_SIZE: usize = 16 * 1024;
/// log2 of [`PAGE_SIZE`].
pub const PAGE_SHIFT: usize = 14;

/// log2 of the span of one L2 entry.
pub const L2_BLOCK_SHIFT: usize = 25;
/// Span of one L2 entry: 32 MiB.
pub const L2_BLOCK_SIZE: usize = 0x200_0000;
/// Entries per 16 KiB table page.
pub const ENTRIES_PER_TABLE: usize = PAGE_SIZE / 8;

/// Maximum user virtual address (exclusive).
///
/// TTBR0 range with T0SZ=17: 0 to 2^47 − 1 = 128 TiB. The 3-level walk
/// (L1→L2→L3) gives each Space a 32 MiB-aligned slot of its own.
pub const USER_VA_END: usize = 0x8000_0000_0000u64 as usize;

/// Mask for extracting the page table physical address from a TTBR value:
/// BADDR occupies bits \[47:14\]; bits \[63:48\] hold the ASID and bit 0 is CnP.
pub const TTBR_BADDR_MASK: u64 = 0x0000_FFFF_FFFF_C000;

/// Attributes of kernel text pages: Normal, read-only, EL0 execute-never.
pub open spec fn text_attrs() -> u64 {
    0x0040_0000_0000_0084u64
}

/// Attributes of kernel rodata pages: Normal, read-only, never executable.
pub open spec fn rodata_attrs() -> u64 {
    0x0060_0000_0000_0084u64
}

/// Attributes of all other RAM pages: Normal, read/write, never executable.
pub open spec fn rw_attrs() -> u64 {
    0x0060_0000_0000_0004u64
}

/// Attributes of device blocks: Device-nGnRnE, read/write, never executable.
pub open spec fn device_block_attrs() -> u64 {
    0x0060_0000_0000_0000u64
}

/// A descriptor is writable at EL1 (AP\[2\] clear) and executable at EL1
/// (PXN clear) at once.
pub open spec fn writable_and_executable(d: u64) -> bool {
    d & 0x80u64 == 0u64 && d & 0x0020_0000_0000_0000u64 == 0u64
}

proof fn lemma_attr_constants()
    by (bit_vector)
    ensures
        0x4u64 | 0x80u64 | 0x0040_0000_0000_0000u64 == 0x0040_0000_0000_0084u64,
        0x4u64 | 0x80u64 | 0x0020_0000_0000_0000u64 | 0x0040_0000_0000_0000u64
            == 0x0060_0000_0000_0084u64,
        0x4u64 | 0x0u64 | 0x0020_0000_0000_0000u64 | 0x0040_0000_0000_0000u64
            == 0x0060_0000_0000_0004u64,
        0x0u64 | 0x0u64 | 0x0020_0000_0000_0000u64 | 0x0040_0000_0000_0000u64
            == 0x0060_0000_0000_0000u64,
        !writable_and_executable(0x0040_0000_0000_0084u64),
        !writable_and_executable(0x0060_0000_0000_0084u64),
        !writable_and_executable(0x0060_0000_0000_0004u64),
        !writable_and_executable(0x0060_0000_0000_0000u64),
{
}

// ── Descriptor builders ───────────────────────────────────────────

/// L2 block descriptor for the 32 MiB block holding `pa`.
pub open spec fn l2_block_desc(pa: u64, attrs: u64) -> u64 {
    (pa & 0xFFFF_FFFF_FE00_0000u64) | attrs | 0x701u64
}

/// L2 table descriptor pointing at the 16 KiB table holding `pa`.
pub open spec fn l2_table_entry(pa: u64) -> u64 {
    (pa & 0xFFFF_FFFF_FFFF_C000u64) | 0x3u64
}

/// L3 page descriptor for the 16 KiB page holding `pa`.
pub open spec fn l3_page_desc(pa: u64, attrs: u64) -> u64 {
    (pa & 0xFFFF_FFFF_FFFF_C000u64) | attrs | 0x703u64
}

proof fn lemma_builder_bits(pa: u64, attrs: u64)
    by (bit_vector)
    ensures
        (pa & 0xFFFF_FFFF_FE00_0000u64) | attrs | 0x300u64 | 0x400u64 | 0x1u64 == (pa
            & 0xFFFF_FFFF_FE00_0000u64) | attrs | 0x701u64,
        (pa & 0xFFFF_FFFF_FFFF_C000u64) | 0x2u64 | 0x1u64 == (pa & 0xFFFF_FFFF_FFFF_C000u64)
            | 0x3u64,
        (pa & 0xFFFF_FFFF_FFFF_C000u64) | attrs | 0x300u64 | 0x400u64 | 0x2u64 | 0x1u64 == (pa
            & 0xFFFF_FFFF_FFFF_C000u64) | attrs | 0x703u64,
        !writable_and_executable(attrs) ==> !writable_and_executable(
            (pa & 0xFFFF_FFFF_FFFF_C000u64) | attrs | 0x703u64,
        ),
        !writable_and_executable(attrs) ==> !writable_and_executable(
            (pa & 0xFFFF_FFFF_FE00_0000u64) | attrs | 0x701u64,
        ),
{
}

fn l2_block(pa: u64, attrs: u64) -> (d: u64)
    ensures
        d == l2_block_desc(pa, attrs),
{
    proof {
        lemma_builder_bits(pa, attrs);
    }
    (pa & 0xFFFF_FFFF_FE00_0000) | attrs | SH_ISH | AF | VALID
}

fn l2_table_desc(table_pa: usize) -> (d: u64)
    ensures
        d == l2_table_entry(table_pa as u64),
{
    proof {
        lemma_builder_bits(table_pa as u64, 0);
    }
    ((table_pa as u64) & 0xFFFF_FFFF_FFFF_C000) | TABLE | VALID
}

fn l3_page(pa: usize, attrs: u64) -> (d: u64)
    ensures
        d == l3_page_desc(pa as u64, attrs),
{
    proof {
        lemma_builder_bits(pa as u64, attrs);
    }
    ((pa as u64) & 0xFFFF_FFFF_FFFF_C000) | attrs | SH_ISH | AF | PAGE | VALID
}

/// L2 index of a kernel virtual address (bits \[35:25\]).
pub fn l2_index(va: usize) -> (idx: usize)
    ensures
        idx == l2_slot(va as int),
        idx < ENTRIES_PER_TABLE,
{
    super::page_table::l2_index(va)
}

/// L3 index of a kernel virtual address (bits \[24:14\]).
pub fn l3_index(va: usize) -> (idx: usize)
    ensures
        idx == super::page_table::l3_slot(va as int),
        idx < ENTRIES_PER_TABLE,
{
    super::page_table::l3_index(va)
}

// ── Page table builders ───────────────────────────────────────────

/// Physical address ranges of the kernel's ELF sections.
pub struct KernelLayout {
    pub text_start: usize,
    pub text_end: usize,
    pub rodata_start: usize,
    pub rodata_end: usize,
    pub data_start: usize,
    pub kernel_end: usize,
}

/// The attributes that the W^X policy gives the page at `pa`.
pub open spec fn attrs_for(pa: usize, layout: KernelLayout) -> u64 {
    if layout.text_start <= pa < layout.text_end {
        text_attrs()
    } else if layout.rodata_start <= pa < layout.rodata_end {
        rodata_attrs()
    } else {
        rw_attrs()
    }
}

/// W^X permission policy: map a physical address to page attributes.
///
/// Every mapped page is either writable or executable, never both. Kernel
/// text is read-only and EL1-executable, rodata read-only, everything
/// else (pre-kernel RAM, data/bss/stack, and the root pool beyond
/// `kernel_end`) read/write and never executable.
pub fn page_attrs(pa: usize, layout: &KernelLayout) -> (attrs: Option<u64>)
    ensures
        attrs == Some(attrs_for(pa, *layout)),
        !writable_and_executable(attrs_for(pa, *layout)),
{
    proof {
        lemma_attr_constants();
    }
    if pa >= layout.text_start && pa < layout.text_end {
        Some(ATTR_NORMAL | AP_RO_EL1 | UXN)
    } else if pa >= layout.rodata_start && pa < layout.rodata_end {
        Some(ATTR_NORMAL | AP_RO_EL1 | PXN | UXN)
    } else if pa >= layout.data_start && pa < layout.kernel_end {
        Some(ATTR_NORMAL | AP_RW_EL1 | PXN | UXN)
    } else if pa < layout.text_start {
        Some(ATTR_NORMAL | AP_RW_EL1 | PXN | UXN)
    } else {
        // Beyond kernel_end: root pool memory. Mapped RW for slab pages,
        // user page tables, RegisterState and other kernel allocations.
        Some(ATTR_NORMAL | AP_RW_EL1 | PXN | UXN)
    }
}

/// L2 index of the first device block (the GIC distributor).
pub open spec fn device_first_slot() -> int {
    l2_slot(platform::GIC_DIST_BASE as int)
}

/// L2 index of the last device block.
pub open spec fn device_last_slot() -> int {
    l2_slot(0x0BFF_FFFF)
}

/// Last L2 index of the RAM range, clamped to the table.
pub open spec fn ram_last_slot(ram_base: int, ram_size: int) -> int {
    let s = l2_slot(ram_base + ram_size - 1);
    if s < 2047 {
        s
    } else {
        2047
    }
}

/// The L2 root after [`build_l2`]: device blocks, the kernel block's table
/// descriptor, and the RAM blocks that follow it, written in that order
/// over `t`.
pub open spec fn built_l2(t: Seq<u64>, l3_pa: usize, ram_base: usize, ram_size: usize) -> Seq<
    u64,
> {
    Seq::new(
        t.len(),
        |i: int|
            if l2_slot(ram_base as int) + 1 <= i <= ram_last_slot(ram_base as int, ram_size as int) {
                l2_block_desc((i * 0x200_0000) as u64, rw_attrs())
            } else if i == l2_slot(ram_base as int) {
                l2_table_entry(l3_pa as u64)
            } else if device_first_slot() <= i <= device_last_slot() {
                l2_block_desc((i * 0x200_0000) as u64, device_block_attrs())
            } else {
                t[i]
            },
    )
}

/// Populate the L2 root table: device MMIO blocks, kernel L3 table
/// descriptor, and remaining RAM blocks.
///
/// The RAM range must be non-empty and end inside the address space.
pub fn build_l2(table: &mut [u64; ENTRIES_PER_TABLE], l3_pa: usize, ram_base: usize, ram_size: usize)
    requires
        ram_base + ram_size >= 1,
        ram_base + ram_size <= usize::MAX,
    ensures
        final(table)@ == built_l2(old(table)@, l3_pa, ram_base, ram_size),
{
    proof {
        lemma_attr_constants();
    }
    let device_attrs = ATTR_DEVICE | AP_RW_EL1 | PXN | UXN;
    let dev_start = l2_index(platform::GIC_DIST_BASE);
    let dev_end = l2_index(0x0BFF_FFFF);

    let mut idx = dev_start;
    while idx <= dev_end
        invariant
            dev_start == device_first_slot(),
            dev_end == device_last_slot(),
            dev_start <= idx <= dev_end + 1,
            dev_end < ENTRIES_PER_TABLE,
            device_attrs == device_block_attrs(),
            forall|i: int|
                0 <= i < ENTRIES_PER_TABLE ==> #[trigger] table@[i] == (if dev_start <= i < idx {
                    l2_block_desc((i * 0x200_0000) as u64, device_block_attrs())
                } else {
                    old(table)@[i]
                }),
        decreases dev_end + 1 - idx,
    {
        table[idx] = l2_block((idx as u64) * (L2_BLOCK_SIZE as u64), device_attrs);
        idx += 1;
    }

    let kernel_idx = l2_index(ram_base);
    table[kernel_idx] = l2_table_desc(l3_pa);

    let ram_rw = ATTR_NORMAL | AP_RW_EL1 | PXN | UXN;
    let ram_start_idx = kernel_idx + 1;
    let last = l2_index(ram_base + ram_size - 1);
    let ram_end_idx = if last < ENTRIES_PER_TABLE - 1 {
        last
    } else {
        ENTRIES_PER_TABLE - 1
    };

    let mut idx = ram_start_idx;
    while idx <= ram_end_idx
        invariant
            kernel_idx == l2_slot(ram_base as int),
            ram_start_idx == kernel_idx + 1,
            ram_end_idx == ram_last_slot(ram_base as int, ram_size as int),
            ram_end_idx < ENTRIES_PER_TABLE,
            ram_start_idx <= idx,
            idx <= ram_end_idx + 1 || idx == ram_start_idx,
            ram_rw == rw_attrs(),
            forall|i: int|
                0 <= i < ENTRIES_PER_TABLE ==> #[trigger] table@[i] == (if ram_start_idx <= i < idx {
                    l2_block_desc((i * 0x200_0000) as u64, rw_attrs())
                } else if i == kernel_idx {
                    l2_table_entry(l3_pa as u64)
                } else if device_first_slot() <= i <= device_last_slot() {
                    l2_block_desc((i * 0x200_0000) as u64, device_block_attrs())
                } else {
                    old(table)@[i]
                }),
        decreases ram_end_idx + 1 - idx,
    {
        table[idx] = l2_block((idx as u64) * (L2_BLOCK_SIZE as u64), ram_rw);
        idx += 1;
    }
    assert(table@ =~= built_l2(old(table)@, l3_pa, ram_base, ram_size));
}

/// The kernel L3 table after [`build_l3`]: every entry maps the page at
/// `block_base + i * PAGE_SIZE` with the W^X policy's attributes.
pub open spec fn built_l3(block_base: usize, layout: KernelLayout) -> Seq<u64> {
    Seq::new(
        2048,
        |i: int|
            l3_page_desc(
                (block_base + i * 0x4000) as u64,
                attrs_for((block_base + i * 0x4000) as usize, layout),
            ),
    )
}

/// Populate the L3 table for the kernel's 32 MiB block using
/// [`page_attrs`].
///
/// The block's last page address must fit in a `usize`.
pub fn build_l3(table: &mut [u64; ENTRIES_PER_TABLE], block_base: usize, layout: &KernelLayout)
    requires
        block_base + 2047 * 0x4000 <= usize::MAX,
    ensures
        final(table)@ == built_l3(block_base, *layout),
        forall|i: int|
            0 <= i < ENTRIES_PER_TABLE ==> !writable_and_executable(#[trigger] final(table)@[i]),
{
    let mut i: usize = 0;
    while i < ENTRIES_PER_TABLE
        invariant
            i <= ENTRIES_PER_TABLE,
            block_base + 2047 * 0x4000 <= usize::MAX,
            forall|j: int|
                0 <= j < i ==> #[trigger] table@[j] == built_l3(block_base, *layout)[j],
            forall|j: int|
                0 <= j < i ==> !writable_and_executable(#[trigger] table@[j]),
        decreases ENTRIES_PER_TABLE - i,
    {
        assert(i * PAGE_SIZE <= 2047 * 0x4000) by (nonlinear_arith)
            requires
                i < 2048,
                PAGE_SIZE == 0x4000,
        ;
        let pa = block_base + i * PAGE_SIZE;

        if let Some(attrs) = page_attrs(pa, layout) {
            proof {
                lemma_builder_bits(pa as u64, attrs);
            }
            table[i] = l3_page(pa, attrs);
        }
        i += 1;
    }
    assert(table@ =~= built_l3(block_base, *layout));
}

// ── TTBR split helpers ────────────────────────────────────────────

/// ASID placed in bits \[63:48\].
pub open spec fn asid_bits(asid: u16) -> u64 {
    (asid as u64) << 48u64
}

/// Construct a TTBR0 value from an ASID and L1 root physical address.
///
/// TTBR0\_EL1 format for 16 KiB granule:
/// - Bits\[63:48\]: ASID (when `TCR_EL1.A1=0`)
/// - Bits\[47:14\]: L1 root table PA
/// - Bits\[13:1\]: RES0 (16 KiB alignment)
/// - Bit\[0\]: CnP = 0 (per-Observer, not shared across cores)
pub fn make_ttbr0(asid: u16, l1_root_pa: u64) -> (ttbr: u64)
    ensures
        ttbr == asid_bits(asid) | (l1_root_pa & 0x0000_FFFF_FFFF_C000u64),
{
    asid_field(asid) | (l1_root_pa & TTBR_BADDR_MASK)
}

/// A TTBR0 value carries the ASID in its top 16 bits, the page-aligned
/// L1 root address in BADDR, and CnP = 0.
pub proof fn law_ttbr0_fields(asid: u16, l1_root_pa: u64)
    by (bit_vector)
    ensures
        (((asid as u64) << 48u64) | (l1_root_pa & 0x0000_FFFF_FFFF_C000u64)) >> 48u64 == asid
            as u64,
        (((asid as u64) << 48u64) | (l1_root_pa & 0x0000_FFFF_FFFF_C000u64))
            & 0x0000_FFFF_FFFF_C000u64 == l1_root_pa & 0x0000_FFFF_FFFF_C000u64,
        (((asid as u64) << 48u64) | (l1_root_pa & 0x0000_FFFF_FFFF_C000u64)) & 1u64 == 0u64,
{
}

/// Construct a TTBR1 value for the kernel page table.
///
/// `CnP=1` because all cores share the same kernel tables. No ASID —
/// `TCR_EL1.A1=0` means the ASID comes from TTBR0, not TTBR1.
pub fn make_ttbr1(l2_root_pa: u64) -> (ttbr: u64)
    ensures
        ttbr == (l2_root_pa & 0x0000_FFFF_FFFF_C000u64) | 1u64,
{
    (l2_root_pa & TTBR_BADDR_MASK) | 1
}

/// Place an ASID into bits\[63:48\] for TTBR or TLBI operand encoding.
pub fn asid_field(asid: u16) -> (bits: u64)
    ensures
        bits == asid_bits(asid),
{
    (asid as u64) << 48
}

/// Extract the base physical address from a TTBR value (strip ASID and CnP).
pub fn ttbr_base_address(ttbr: u64) -> (pa: u64)
    ensures
        pa == ttbr & 0x0000_FFFF_FFFF_C000u64,
{
    ttbr & TTBR_BADDR_MASK
}

/// The fixed fields of TCR\_EL1 for the split: T0SZ=17, IRGN0/ORGN0 WB-WA,
/// SH0 Inner Shareable, TG0 16 KiB, T1SZ=28, EPD1=0, IRGN1/ORGN1 WB-WA,
/// SH1 Inner Shareable, TG1 16 KiB, E0PD1=1.
pub open spec fn tcr_fixed_fields() -> u64 {
    0x0100_0000_751C_B511u64
}

proof fn lemma_tcr_bits(pa_range: u64)
    by (bit_vector)
    ensures
        (17u64 << 0u64) | (0b01u64 << 8u64) | (0b01u64 << 10u64) | (0b11u64 << 12u64) | (0b10u64
            << 14u64) | (28u64 << 16u64) | (0b01u64 << 24u64) | (0b01u64 << 26u64) | (0b11u64
            << 28u64) | (0b01u64 << 30u64) | (pa_range << 32u64) | (1u64 << 56u64)
            == 0x0100_0000_751C_B511u64 | (pa_range << 32u64),
{
}

/// Build the TCR\_EL1 value for the TTBR0/TTBR1 split.
///
/// Asymmetric VA sizes: user T0SZ=17 (47-bit, 3-level L1→L2→L3),
/// kernel T1SZ=28 (36-bit, 2-level L2→L3). `EPD1=0` enables TTBR1
/// walks; `E0PD1=1` provides Meltdown mitigation. IPS comes from the
/// hardware's `pa_range`.
pub fn build_tcr_split(pa_range: u64) -> (tcr: u64)
    ensures
        tcr == tcr_fixed_fields() | (pa_range << 32u64),
{
    proof {
        lemma_tcr_bits(pa_range);
    }
    (17 << 0) // T0SZ = 17: 47-bit VA (128 TiB) for TTBR0 — 3-level walk
     | (0b01 << 8) // IRGN0: Inner Write-Back Write-Allocate
     | (0b01 << 10) // ORGN0: Outer Write-Back Write-Allocate
     | (0b11 << 12) // SH0: Inner Shareable
     | (0b10 << 14) // TG0: 16 KiB granule
     | (28 << 16) // T1SZ = 28: 36-bit VA (64 GiB) for TTBR1 — 2-level walk
    // EPD1 (bit 23) = 0: enable TTBR1 walks
     | (0b01 << 24) // IRGN1: Inner Write-Back Write-Allocate
     | (0b01 << 26) // ORGN1: Outer Write-Back Write-Allocate
     | (0b11 << 28) // SH1: Inner Shareable
     | (0b01 << 30) // TG1: 16 KiB granule
     | (pa_range << 32) // IPS: from hardware
     | (1 << 56) // E0PD1: prevent EL0 speculative access to TTBR1
}

/// Detect ASID width from `ID_AA64MMFR0_EL1`.
///
/// ARM ARM: `ASIDBits` at bits\[7:4\]. `0b0000` = 8-bit, `0b0010` = 16-bit.
pub fn asid_width_from_mmfr0(mmfr0: u64) -> (width: u8)
    ensures
        width == (if (mmfr0 >> 4u64) & 0xFu64 >= 2 {
            16u8
        } else {
            8u8
        }),
{
    if ((mmfr0 >> 4) & 0xF) >= 2 {
        16
    } else {
        8
    }
}

/// Page size in bytes (16 KiB granule).
pub fn page_size() -> (size: usize)
    ensures
        size == PAGE_SIZE,
{
    PAGE_SIZE
}

// ── Register values for MMU enable and TLB maintenance ─────────────

/// MAIR\_EL1 value: attribute index 0 Device-nGnRnE, index 1 Normal
/// Inner/Outer Write-Back Write-Allocate.
pub fn mair_el1_value() -> (mair: u64)
    ensures
        mair == 0xFF00u64,
{
    assert(MAIR_DEVICE_NGNRNE | (MAIR_NORMAL_WB << 8u64) == 0xFF00u64) by (bit_vector);
    MAIR_DEVICE_NGNRNE | (MAIR_NORMAL_WB << 8)
}

/// Physical address range field (`PARange`, bits \[3:0\]) of
/// `ID_AA64MMFR0_EL1`, which becomes TCR\_EL1.IPS.
pub fn pa_range_from_mmfr0(mmfr0: u64) -> (pa_range: u64)
    ensures
        pa_range == mmfr0 & 0xFu64,
        pa_range < 16,
{
    assert(mmfr0 & 0xFu64 < 16u64) by (bit_vector);
    mmfr0 & 0xF
}

/// SCTLR\_EL1 with the MMU (M, bit 0), data cache (C, bit 2), instruction
/// cache (I, bit 12) and write-implies-execute-never (WXN, bit 19)
/// switched on; every other bit is kept.
pub fn sctlr_with_mmu_enabled(sctlr: u64) -> (enabled: u64)
    ensures
        enabled == sctlr | 0x8_1005u64,
        enabled & 1u64 == 1u64,
        enabled & 0x8_0000u64 == 0x8_0000u64,
{
    assert((sctlr | 0x8_1005u64) & 1u64 == 1u64 && (sctlr | 0x8_1005u64) & 0x8_0000u64
        == 0x8_0000u64) by (bit_vector);
    assert(sctlr | (1u64 << 0u64) | (1u64 << 2u64) | (1u64 << 12u64) | (1u64 << 19u64) == sctlr
        | 0x8_1005u64) by (bit_vector);
    sctlr | (1 << 0) | (1 << 2) | (1 << 12) | (1 << 19)
}

/// Operand of a by-VA TLB invalidation (`TLBI VALE1IS`): the ASID in bits
/// \[63:48\] and the VA shifted right by 12.
pub open spec fn tlbi_operand(asid: u16, va: u64) -> u64 {
    asid_bits(asid) | (va >> 12u64)
}

/// TLBI operand for one page of a Space.
pub fn tlbi_va_operand(asid: u16, va: usize) -> (op: u64)
    ensures
        op == tlbi_operand(asid, va as u64),
{
    asid_field(asid) | ((va as u64) >> 12)
}

/// TLBI operands invalidating each page of a Space of `page_count` pages at
/// `va_base`, in page order. The Space's last page must lie within the
/// address space.
pub fn tlbi_space_operands(asid: u16, va_base: usize, page_count: usize) -> (ops: Vec<u64>)
    requires
        page_count == 0 || va_base + (page_count - 1) * PAGE_SIZE <= usize::MAX,
    ensures
        ops.len() == page_count,
        forall|i: int|
            0 <= i < page_count ==> #[trigger] ops@[i] == tlbi_operand(
                asid,
                (va_base + i * PAGE_SIZE) as u64,
            ),
{
    let mut ops: Vec<u64> = Vec::new();
    let mut i: usize = 0;
    while i < page_count
        invariant
            page_count == 0 || va_base + (page_count - 1) * PAGE_SIZE <= usize::MAX,
            0 <= i <= page_count,
            ops.len() == i,
            forall|j: int|
                0 <= j < i ==> #[trigger] ops@[j] == tlbi_operand(
                    asid,
                    (va_base + j * PAGE_SIZE) as u64,
                ),
        decreases page_count - i,
    {
        assert(i * PAGE_SIZE <= (page_count - 1) * PAGE_SIZE) by (nonlinear_arith)
            requires
                i < page_count,
        ;
        let va = va_base + i * PAGE_SIZE;
        ops.push(tlbi_va_operand(asid, va));
        i += 1;
    }
    ops
}

// ── Boot page table laws ──────────────────────────────────────────

proof fn lemma_ram_block_bits(i: u64)
    by (bit_vector)
    requires
        i < 2048,
    ensures
        (((i * 0x200_0000u64) as u64) & 0xFFFF_FFFF_FE00_0000u64) | 0x0060_0000_0000_0004u64
            | 0x701u64 == ((i * 0x200_0000u64) as u64) | 0x0060_0000_0000_0705u64,
        (((i * 0x200_0000u64) as u64) | 0x0060_0000_0000_0705u64) & 0x3u64 == 0x1u64,
        (((i * 0x200_0000u64) as u64) | 0x0060_0000_0000_0705u64) & 0x0000_FFFF_FFFF_F000u64
            == ((i * 0x200_0000u64) as u64),
{
}

/// Every 32 MiB block of RAM after the kernel's own block, up to the
/// block holding the last byte of RAM, is identity-mapped in the L2 root
/// by a valid block descriptor (bits \[1:0\] = 0b01) whose output address
/// is the block's address `i * 32 MiB`, with Normal memory, EL1
/// read/write, inner-shareable, accessed, PXN and UXN attributes.
pub proof fn law_l2_maps_ram_after_kernel(
    t: Seq<u64>,
    l3_pa: usize,
    ram_base: usize,
    ram_size: usize,
    i: int,
)
    requires
        t.len() == ENTRIES_PER_TABLE,
        ram_base + ram_size >= 1,
        l2_slot(ram_base as int) < i <= l2_slot(ram_base + ram_size - 1),
        i <= 2047,
    ensures
        built_l2(t, l3_pa, ram_base, ram_size)[i] == ((i * 0x200_0000) as u64
            | 0x0060_0000_0000_0705u64),
        built_l2(t, l3_pa, ram_base, ram_size)[i] & 0x3u64 == 0x1u64,
        built_l2(t, l3_pa, ram_base, ram_size)[i] & 0x0000_FFFF_FFFF_F000u64 == i * 0x200_0000,
{
    lemma_ram_block_bits(i as u64);
    assert((i as u64) * 0x200_0000u64 == i * 0x200_0000);
}

proof fn lemma_other_l2_bits(i: u64, pa: u64)
    by (bit_vector)
    requires
        i < 2048,
    ensures
        (((i * 0x200_0000u64) as u64) & 0xFFFF_FFFF_FE00_0000u64) | 0x0060_0000_0000_0000u64
            | 0x701u64 == ((i * 0x200_0000u64) as u64) | 0x0060_0000_0000_0701u64,
        ((pa & 0xFFFF_FFFF_FFFF_C000u64) | 0x3u64) & 0x3u64 == 0x3u64,
        ((pa & 0xFFFF_FFFF_FFFF_C000u64) | 0x3u64) & 0xFFFF_FFFF_FFFF_C000u64 == pa
            & 0xFFFF_FFFF_FFFF_C000u64,
{
}

/// The rest of the L2 root: the kernel's block slot holds a table
/// descriptor (bits \[1:0\] = 0b11) for the kernel L3 table at `l3_pa`;
/// the device slots (GIC distributor up to the end of the MMIO window
/// at 0x0BFF_FFFF) not taken by RAM hold identity Device-nGnRnE, EL1
/// read/write, never-executable block descriptors; every other entry is
/// left as it was.
pub proof fn law_l2_kernel_table_and_devices(
    t: Seq<u64>,
    l3_pa: usize,
    ram_base: usize,
    ram_size: usize,
    i: int,
)
    requires
        t.len() == ENTRIES_PER_TABLE,
        0 <= i < ENTRIES_PER_TABLE,
        ram_base + ram_size >= 1,
    ensures
        i == l2_slot(ram_base as int) ==> built_l2(t, l3_pa, ram_base, ram_size)[i] & 0x3u64
            == 0x3u64 && built_l2(t, l3_pa, ram_base, ram_size)[i] & 0xFFFF_FFFF_FFFF_C000u64
            == (l3_pa as u64) & 0xFFFF_FFFF_FFFF_C000u64,
        i != l2_slot(ram_base as int) && !(l2_slot(ram_base as int) < i <= l2_slot(ram_base + ram_size - 1)) && l2_slot(
            platform::GIC_DIST_BASE as int,
        ) <= i <= l2_slot(0x0BFF_FFFF) ==> built_l2(t, l3_pa, ram_base, ram_size)[i] == ((i
            * 0x200_0000) as u64 | 0x0060_0000_0000_0701u64),
        i != l2_slot(ram_base as int) && !(l2_slot(ram_base as int) < i <= l2_slot(ram_base + ram_size - 1)) && !(l2_slot(
            platform::GIC_DIST_BASE as int,
        ) <= i <= l2_slot(0x0BFF_FFFF)) ==> built_l2(t, l3_pa, ram_base, ram_size)[i] == t[i],
{
    lemma_other_l2_bits(i as u64, l3_pa as u64);
    assert((i as u64) * 0x200_0000u64 == i * 0x200_0000);
}

proof fn lemma_l3_desc_bits(pa: u64, attrs: u64)
    by (bit_vector)
    requires
        attrs & 0x0000_FFFF_FFFF_C003u64 == 0u64,
        pa < 0x1_0000_0000_0000u64,
    ensures
        ((pa & 0xFFFF_FFFF_FFFF_C000u64) | attrs | 0x703u64) & 0x0000_FFFF_FFFF_C000u64 == pa
            & 0x0000_FFFF_FFFF_C000u64,
        ((pa & 0xFFFF_FFFF_FFFF_C000u64) | attrs | 0x703u64) & 0x3u64 == 0x3u64,
        ((pa & 0xFFFF_FFFF_FFFF_C000u64) | attrs | 0x703u64) & 0x0020_0000_0000_0000u64 == attrs
            & 0x0020_0000_0000_0000u64,
        ((pa & 0xFFFF_FFFF_FFFF_C000u64) | attrs | 0x703u64) & 0x80u64 == attrs & 0x80u64,
{
}

proof fn lemma_attr_bits()
    by (bit_vector)
    ensures
        0x0040_0000_0000_0084u64 & 0x0000_FFFF_FFFF_C003u64 == 0u64,
        0x0060_0000_0000_0084u64 & 0x0000_FFFF_FFFF_C003u64 == 0u64,
        0x0060_0000_0000_0004u64 & 0x0000_FFFF_FFFF_C003u64 == 0u64,
        0x0040_0000_0000_0084u64 & 0x0020_0000_0000_0000u64 == 0u64,
        0x0060_0000_0000_0084u64 & 0x0020_0000_0000_0000u64 != 0u64,
        0x0060_0000_0000_0004u64 & 0x0020_0000_0000_0000u64 != 0u64,
        0x0040_0000_0000_0084u64 & 0x80u64 != 0u64,
        0x0060_0000_0000_0084u64 & 0x80u64 != 0u64,
        0x0060_0000_0000_0004u64 & 0x80u64 == 0u64,
{
}

/// Entry `i` of the kernel's L3 table is a valid page descriptor for the
/// `i`-th 16 KiB frame of the block: its output address is
/// `block_base + i * 16 KiB`, so consecutive entries map consecutive
/// frames. Its permissions follow W^X by section: a text page is
/// read-only and EL1-executable (PXN clear); every other page is
/// EL1-execute-never (PXN set), read-only in rodata and read/write
/// elsewhere. (Physical addresses are below 2^48.)
pub proof fn law_l3_maps_consecutive_frames(block_base: usize, layout: KernelLayout, i: int)
    requires
        0 <= i < ENTRIES_PER_TABLE,
        block_base + 2047 * 0x4000 < 0x1_0000_0000_0000,
        block_base + 2047 * 0x4000 <= usize::MAX,
    ensures
        built_l3(block_base, layout)[i] & 0x0000_FFFF_FFFF_C000u64 == ((block_base + i * 0x4000) as u64)
            & 0x0000_FFFF_FFFF_C000u64,
        built_l3(block_base, layout)[i] & 0x3u64 == 0x3u64,
        layout.text_start <= block_base + i * 0x4000 < layout.text_end ==> built_l3(
            block_base,
            layout,
        )[i] & 0x0020_0000_0000_0000u64 == 0u64 && built_l3(block_base, layout)[i] & 0x80u64
            != 0u64,
        !(layout.text_start <= block_base + i * 0x4000 < layout.text_end) ==> built_l3(
            block_base,
            layout,
        )[i] & 0x0020_0000_0000_0000u64 != 0u64,
        !(layout.text_start <= block_base + i * 0x4000 < layout.text_end) && layout.rodata_start
            <= block_base + i * 0x4000 < layout.rodata_end ==> built_l3(block_base, layout)[i]
            & 0x80u64 != 0u64,
        !(layout.text_start <= block_base + i * 0x4000 < layout.text_end) && !(layout.rodata_start
            <= block_base + i * 0x4000 < layout.rodata_end) ==> built_l3(block_base, layout)[i]
            & 0x80u64 == 0u64,
{
    let pa = block_base + i * 0x4000;
    assert(i * 0x4000 <= 2047 * 0x4000);
    assert((pa as usize) as int == pa);
    assert((pa as u64) as int == pa);
    lemma_attr_bits();
    lemma_l3_desc_bits(pa as u64, attrs_for(pa as usize, layout));
}

} // verus!
