//! Per-Observer page table building blocks.
//!
//! 3-level user page tables (T0SZ=17, 16 KiB granule):
//!
//! - **L1 root**: per-Observer (2048 entries, each covers 64 GiB)
//! - **L2 tables**: per-Observer (2048 entries, each covers 32 MiB)
//! - **L3 tables**: per-Space, shared across Observers (2048 entries, 16 KiB pages)
//!
//! Spaces are aligned to L2 entry boundaries (32 MiB) so each L3 table
//! belongs to exactly one Space, and Observers' L2 entries point to the same
//! Space-owned L3 tables.
//!
//! Every function here works on plain descriptor values or on a table held
//! as a `[u64; ENTRIES_PER_TABLE]` array; the walk from a physical address to
//! the table memory is the caller's concern.

use super::mmu::USER_VA_END;
use vstd::prelude::*;

verus! {

/// Page size in bytes (16 KiB granule).
pub const PAGE_SIZE: usize = 16 * 1024;

/// log2 of [`PAGE_SIZE`].
pub const PAGE_SHIFT: usize = 14;

/// log2 of the VA span of one L2 entry (32 MiB).
pub const L2_BLOCK_SHIFT: usize = 25;

/// log2 of the VA span of one L1 entry (64 GiB).
pub const L1_BLOCK_SHIFT: usize = 36;

/// Number of entries per page table page (L1, L2, or L3).
///
/// 16 KiB / 8 bytes = 2048.
pub const ENTRIES_PER_TABLE: usize = PAGE_SIZE / 8;

/// VA alignment for Space VA bases: one L2 entry (32 MiB), so a Space's
/// L3 table can be shared across Observers without entry conflicts.
pub const SPACE_VA_ALIGNMENT: usize = 0x200_0000;

// ── Descriptor bits ────────────────────────────────────────────────

/// Descriptor is valid.
pub const VALID: u64 = 0x1;
/// Table descriptor (L1/L2 entries pointing at the next level).
pub const TABLE: u64 = 0x2;
/// Page descriptor (L3 entries); same bit as [`TABLE`].
pub const PAGE: u64 = 0x2;
/// AttrIndx = 1: Normal memory.
pub const ATTR_NORMAL: u64 = 0x4;
/// AP = 0b01: read/write at EL1 and EL0.
pub const AP_RW_EL0: u64 = 0x40;
/// SH = 0b11: Inner Shareable.
pub const SH_ISH: u64 = 0x300;
/// Access flag.
pub const AF: u64 = 0x400;
/// Not-global: the translation is tagged with the Observer's ASID.
pub const NG: u64 = 0x800;
/// Privileged execute-never.
pub const PXN: u64 = 0x0020_0000_0000_0000;
/// Unprivileged execute-never (never set on user pages).
pub const UXN: u64 = 0x0040_0000_0000_0000;

/// Keeps the 16 KiB frame part of an address: clears bits [13:0].
pub const FRAME_MASK: u64 = 0xFFFF_FFFF_FFFF_C000;

/// Valid and table bits together.
const TABLE_BITS: u64 = 0x3;

/// Output-address field of a descriptor: bits [47:14].
pub const PA_MASK: u64 = 0x0000_FFFF_FFFF_C000;

// ── Specification model ────────────────────────────────────────────

/// L1 slot covering `va`: bits [46:36].
pub open spec fn l1_slot(va: int) -> int {
    (va / 0x10_0000_0000) % 2048
}

/// L2 slot covering `va`: bits [35:25].
pub open spec fn l2_slot(va: int) -> int {
    (va / 0x200_0000) % 2048
}

/// L3 slot covering `va`: bits [24:14].
pub open spec fn l3_slot(va: int) -> int {
    (va / 0x4000) % 2048
}

/// `pa` rounded down to its 16 KiB frame.
pub open spec fn frame_of(pa: u64) -> u64 {
    pa & !0x3FFFu64
}

/// Attribute bits of a user page descriptor: Normal memory, EL0 RW, Inner
/// Shareable, AF, nG, PXN, page, valid (0x0020_0000_0000_0F47).
pub open spec fn user_page_attrs() -> u64 {
    0x0020_0000_0000_0F47u64
}

/// The user page descriptor that maps the frame holding `pa`.
pub open spec fn user_page_desc(pa: u64) -> u64 {
    frame_of(pa) | user_page_attrs()
}

/// The table descriptor that points at the table holding `pa`.
pub open spec fn table_desc(pa: u64) -> u64 {
    frame_of(pa) | 3u64
}

/// An entry is a valid table descriptor: bits 0 and 1 both set.
pub open spec fn is_table_entry(e: u64) -> bool {
    e & 3u64 == 3u64
}

/// An entry is a valid page descriptor: bit 0 set.
pub open spec fn is_page_entry(e: u64) -> bool {
    e & 1u64 != 0u64
}

/// Output address held by a descriptor (bits [47:14]).
pub open spec fn output_address(e: u64) -> u64 {
    e & 0x0000_FFFF_FFFF_C000u64
}

/// Every entry of the table is zero (invalid).
pub open spec fn all_zero(s: Seq<u64>) -> bool {
    forall|i: int| 0 <= i < s.len() ==> s[i] == 0u64
}

/// Number of valid table descriptors in `s`.
pub open spec fn count_tables(s: Seq<u64>) -> nat
    decreases s.len(),
{
    if s.len() == 0 {
        0
    } else {
        count_tables(s.drop_last()) + if is_table_entry(s.last()) {
            1nat
        } else {
            0nat
        }
    }
}

/// Number of valid page descriptors in `s`.
pub open spec fn count_pages(s: Seq<u64>) -> nat
    decreases s.len(),
{
    if s.len() == 0 {
        0
    } else {
        count_pages(s.drop_last()) + if is_page_entry(s.last()) {
            1nat
        } else {
            0nat
        }
    }
}

/// Number of 32 MiB regions (L2 entries) that a VA range of `page_count`
/// pages starting at `va_base` touches, from its first page to its last.
pub open spec fn l3_tables_needed(va_base: int, page_count: int) -> int {
    if page_count == 0 {
        0
    } else {
        (va_base + (page_count - 1) * 0x4000) / 0x200_0000 - va_base / 0x200_0000 + 1
    }
}

/// Byte length of a user range of `page_count` pages.
pub open spec fn range_bytes(page_count: int) -> int {
    page_count * 0x4000
}

proof fn lemma_user_page_desc_bits(pa: u64)
    by (bit_vector)
    ensures
        (pa & 0xFFFF_FFFF_FFFF_C000u64) | 0x4u64 | 0x40u64 | 0x300u64 | 0x400u64 | 0x800u64
            | 0x0020_0000_0000_0000u64 | 0x2u64 | 0x1u64 == (pa & !0x3FFFu64)
            | 0x0020_0000_0000_0F47u64,
{
}

proof fn lemma_table_desc_bits(pa: u64)
    by (bit_vector)
    ensures
        (pa & 0xFFFF_FFFF_FFFF_C000u64) | 0x2u64 | 0x1u64 == (pa & !0x3FFFu64) | 3u64,
{
}

// ── Index helpers ──────────────────────────────────────────────────

proof fn lemma_slot_bits(va: u64)
    by (bit_vector)
    ensures
        (va >> 36u64) & 2047u64 == (va / 0x10_0000_0000u64) % 2048u64,
        (va >> 25u64) & 2047u64 == (va / 0x200_0000u64) % 2048u64,
        (va >> 14u64) & 2047u64 == (va / 0x4000u64) % 2048u64,
{
}

/// L1 table index for a virtual address (bits\[46:36\]).
pub fn l1_index(va: usize) -> (idx: usize)
    ensures
        idx == l1_slot(va as int),
        idx < ENTRIES_PER_TABLE,
{
    proof {
        lemma_slot_bits(va as u64);
    }
    (((va as u64) >> (L1_BLOCK_SHIFT as u64)) & ((ENTRIES_PER_TABLE - 1) as u64)) as usize
}

/// L2 table index for a virtual address (bits\[35:25\]).
pub fn l2_index(va: usize) -> (idx: usize)
    ensures
        idx == l2_slot(va as int),
        idx < ENTRIES_PER_TABLE,
{
    proof {
        lemma_slot_bits(va as u64);
    }
    (((va as u64) >> (L2_BLOCK_SHIFT as u64)) & ((ENTRIES_PER_TABLE - 1) as u64)) as usize
}

/// L3 table index for a virtual address (bits\[24:14\]).
pub fn l3_index(va: usize) -> (idx: usize)
    ensures
        idx == l3_slot(va as int),
        idx < ENTRIES_PER_TABLE,
{
    proof {
        lemma_slot_bits(va as u64);
    }
    (((va as u64) >> (PAGE_SHIFT as u64)) & ((ENTRIES_PER_TABLE - 1) as u64)) as usize
}

/// Number of L3 tables needed to cover a VA range: one per 32 MiB L2 slot
/// that the range touches, from the first page to the last.
///
/// The last page's address must fit in a `usize`.
pub fn l3_tables_for_range(va_base: usize, page_count: usize) -> (n: usize)
    requires
        page_count > 0 ==> va_base + (page_count - 1) * 0x4000 <= usize::MAX,
    ensures
        n == l3_tables_needed(va_base as int, page_count as int),
{
    if page_count == 0 {
        return 0;
    }
    let va_end = va_base + (page_count - 1) * PAGE_SIZE;
    proof {
        lemma_region_shift(va_base as u64);
        lemma_region_shift(va_end as u64);
        assert(va_base / 0x200_0000 <= va_end / 0x200_0000) by (nonlinear_arith)
            requires
                va_base <= va_end,
        ;
    }
    let first = ((va_base as u64) >> (L2_BLOCK_SHIFT as u64)) as usize;
    let last = ((va_end as u64) >> (L2_BLOCK_SHIFT as u64)) as usize;

    last - first + 1
}

proof fn lemma_region_shift(va: u64)
    by (bit_vector)
    ensures
        va >> 25u64 == va / 0x200_0000u64,
        va >> 25u64 < 0x80_0000_0000u64,
{
}

// ── Descriptor constructors ────────────────────────────────────────

/// Build a user-space L3 page descriptor.
///
/// Maps one 16 KiB page at the given physical address with:
/// - AP = RW for EL0
/// - Normal memory, Inner Shareable
/// - AF = 1 (no access-flag fault on first touch)
/// - nG = 1 (ASID-tagged, per-Observer)
/// - PXN = 1 (EL1 cannot execute from user pages)
/// - UXN = 0 (EL0 can execute)
pub fn user_page_descriptor(pa: u64) -> (desc: u64)
    ensures
        desc == user_page_desc(pa),
{
    let desc = (pa & FRAME_MASK) | ATTR_NORMAL | AP_RW_EL0 | SH_ISH | AF | NG | PXN | PAGE | VALID;
    proof {
        lemma_user_page_desc_bits(pa);
    }
    desc
}

/// Build a table descriptor (L1→L2 or L2→L3, same format on ARM64).
pub fn table_descriptor(next_level_pa: u64) -> (desc: u64)
    ensures
        desc == table_desc(next_level_pa),
{
    proof {
        lemma_table_desc_bits(next_level_pa);
    }
    (next_level_pa & FRAME_MASK) | TABLE | VALID
}

// ── Entry queries ──────────────────────────────────────────────────

/// Check whether an entry is a valid table descriptor.
pub fn is_valid_table(entry: u64) -> (b: bool)
    ensures
        b == is_table_entry(entry),
{
    (entry & TABLE_BITS) == TABLE_BITS
}

/// Extract the next-level table physical address from a table descriptor.
pub fn table_address(entry: u64) -> (pa: u64)
    ensures
        pa == output_address(entry),
{
    entry & PA_MASK
}

/// Check whether an L3 page entry is valid.
pub fn is_valid_page(entry: u64) -> (b: bool)
    ensures
        b == is_page_entry(entry),
{
    (entry & VALID) != 0
}

/// Extract the physical page address from an L3 page descriptor.
pub fn page_address(entry: u64) -> (pa: u64)
    ensures
        pa == output_address(entry),
{
    entry & PA_MASK
}


/// A user page descriptor is a valid page descriptor whose output address
/// is the page-aligned `pa` (within the 48-bit PA field) and whose
/// attributes are: AttrIndx 1 (Normal), AP 0b01 (EL0 RW), SH 0b11, AF, nG
/// and PXN set; UXN is clear whenever `pa` has no bit 54.
pub proof fn lemma_user_page_descriptor_fields(pa: u64)
    by (bit_vector)
    ensures
        user_page_desc(pa) & 0x1u64 != 0u64,
        user_page_desc(pa) & 0x2u64 != 0u64,
        output_address(user_page_desc(pa)) == pa & 0x0000_FFFF_FFFF_C000u64,
        (user_page_desc(pa) >> 2u64) & 0x7u64 == 0x1u64,
        (user_page_desc(pa) >> 6u64) & 0x3u64 == 0x1u64,
        (user_page_desc(pa) >> 8u64) & 0x3u64 == 0x3u64,
        user_page_desc(pa) & 0x400u64 != 0u64,
        user_page_desc(pa) & 0x800u64 != 0u64,
        user_page_desc(pa) & 0x0020_0000_0000_0000u64 != 0u64,
        pa & 0x0040_0000_0000_0000u64 == 0u64 ==> user_page_desc(pa) & 0x0040_0000_0000_0000u64
            == 0u64,
{
}

/// A table descriptor is a valid table descriptor whose output address is
/// the page-aligned `pa` (within the 48-bit PA field).
pub proof fn lemma_table_descriptor_fields(pa: u64)
    by (bit_vector)
    ensures
        is_table_entry(table_desc(pa)),
        output_address(table_desc(pa)) == pa & 0x0000_FFFF_FFFF_C000u64,
{
}

/// The zero entry is neither a valid table nor a valid page.
pub proof fn lemma_zero_entry_invalid()
    ensures
        !is_table_entry(0u64),
        !is_page_entry(0u64),
{
    assert(0u64 & 3u64 == 0u64) by (bit_vector);
    assert(0u64 & 1u64 == 0u64) by (bit_vector);
}

// ── Entry-level operations ─────────────────────────────────────────

/// Write a user page descriptor at the specified L3 position.
pub fn write_page_entry(l3: &mut [u64; ENTRIES_PER_TABLE], idx: usize, pa: u64)
    requires
        idx < ENTRIES_PER_TABLE,
    ensures
        final(l3)@ == old(l3)@.update(idx as int, user_page_desc(pa)),
{
    l3[idx] = user_page_descriptor(pa);
}

/// Clear a page entry (set to invalid).
pub fn clear_page_entry(l3: &mut [u64; ENTRIES_PER_TABLE], idx: usize)
    requires
        idx < ENTRIES_PER_TABLE,
    ensures
        final(l3)@ == old(l3)@.update(idx as int, 0u64),
{
    l3[idx] = 0;
}

/// Whether every entry of a table is zero.
fn table_is_zero(t: &[u64; ENTRIES_PER_TABLE]) -> (b: bool)
    ensures
        b == all_zero(t@),
{
    let mut i: usize = 0;
    while i < ENTRIES_PER_TABLE
        invariant
            i <= ENTRIES_PER_TABLE,
            t@.len() == ENTRIES_PER_TABLE,
            forall|j: int| 0 <= j < i ==> t@[j] == 0u64,
        decreases ENTRIES_PER_TABLE - i,
    {
        if t[i] != 0 {
            return false;
        }
        i += 1;
    }
    true
}

/// Check if an L3 table has no valid entries.
pub fn l3_is_empty(l3: &[u64; ENTRIES_PER_TABLE]) -> (b: bool)
    ensures
        b == all_zero(l3@),
{
    table_is_zero(l3)
}

// ── Eager L3 population ──────────────────────────────────────────

/// Eagerly populate an L3 table with user page descriptors.
///
/// Writes `page_count` entries starting from index 0, each mapping
/// `pa_base + i * PAGE_SIZE`. If `page_count > ENTRIES_PER_TABLE`,
/// it is clamped to `ENTRIES_PER_TABLE`. Remaining entries are untouched
/// (caller is expected to provide a zeroed table).
///
/// The last written page's address must fit in a `u64`.
pub fn populate_l3(l3: &mut [u64; ENTRIES_PER_TABLE], pa_base: u64, page_count: usize)
    requires
        page_count > 0 ==> pa_base + (min_entries(page_count as int) - 1) * 0x4000 <= u64::MAX,
    ensures
        final(l3)@ == populated(old(l3)@, pa_base, page_count as int),
{
    let count = if page_count < ENTRIES_PER_TABLE {
        page_count
    } else {
        ENTRIES_PER_TABLE
    };
    let mut i: usize = 0;
    while i < count
        invariant
            count == min_entries(page_count as int),
            i <= count,
            page_count > 0 ==> pa_base + (count - 1) * 0x4000 <= u64::MAX,
            forall|j: int|
                0 <= j < i ==> #[trigger] l3@[j] == user_page_desc((pa_base + j * 0x4000) as u64),
            forall|j: int| i <= j < ENTRIES_PER_TABLE ==> #[trigger] l3@[j] == old(l3)@[j],
        decreases count - i,
    {
        write_page_entry(l3, i, pa_base + (i as u64) * (PAGE_SIZE as u64));
        i += 1;
    }
    assert(l3@ =~= populated(old(l3)@, pa_base, page_count as int));
}

/// The table `t` after its first `min(page_count, 2048)` entries are
/// overwritten with user page descriptors for consecutive 16 KiB pages
/// starting at `pa_base`.
pub open spec fn populated(t: Seq<u64>, pa_base: u64, page_count: int) -> Seq<u64> {
    Seq::new(
        t.len(),
        |i: int|
            if i < min_entries(page_count) {
                user_page_desc((pa_base + i * 0x4000) as u64)
            } else {
                t[i]
            },
    )
}

/// A table whose first `k` entries are valid pages and whose remaining
/// entries are zero holds exactly `k` valid pages.
proof fn lemma_count_prefix_pages(s: Seq<u64>, k: int)
    requires
        0 <= k <= s.len(),
        forall|i: int| 0 <= i < k ==> is_page_entry(#[trigger] s[i]),
        forall|i: int| k <= i < s.len() ==> #[trigger] s[i] == 0u64,
    ensures
        count_pages(s) == k,
    decreases s.len(),
{
    if s.len() > 0 {
        lemma_zero_entry_invalid();
        if k == s.len() {
            lemma_count_prefix_pages(s.drop_last(), k - 1);
        } else {
            lemma_count_prefix_pages(s.drop_last(), k);
        }
    }
}

/// Populating a zeroed table with `page_count` pages leaves exactly
/// `min(page_count, ENTRIES_PER_TABLE)` valid page descriptors, and the
/// entry at each populated index maps the page-aligned address
/// `pa_base + i * PAGE_SIZE`.
pub proof fn law_populate_zeroed_table(t: Seq<u64>, pa_base: u64, page_count: int)
    requires
        t.len() == ENTRIES_PER_TABLE,
        all_zero(t),
        page_count >= 0,
    ensures
        count_pages(populated(t, pa_base, page_count)) == min_entries(page_count),
        forall|i: int|
            0 <= i < min_entries(page_count) ==> is_page_entry(
                #[trigger] populated(t, pa_base, page_count)[i],
            ) && output_address(populated(t, pa_base, page_count)[i]) == ((pa_base + i
                * 0x4000) as u64) & 0x0000_FFFF_FFFF_C000u64,
{
    let p = populated(t, pa_base, page_count);
    assert forall|i: int| 0 <= i < min_entries(page_count) implies is_page_entry(#[trigger] p[i])
        && output_address(p[i]) == ((pa_base + i * 0x4000) as u64) & 0x0000_FFFF_FFFF_C000u64 by {
        lemma_user_page_descriptor_fields((pa_base + i * 0x4000) as u64);
    }
    lemma_count_prefix_pages(p, min_entries(page_count));
}

/// `n` clamped to the number of entries in one table.
pub open spec fn min_entries(n: int) -> int {
    if n < 2048 {
        n
    } else {
        2048
    }
}

// ── Cap-to-mapping protocol helpers ──────────────────────────────

/// Check whether L1 has an L2 table for the given VA.
///
/// Returns `Some(l2_pa)` if the L1 entry at the VA's L1 index is a
/// valid table descriptor, `None` otherwise.
pub fn l1_l2_table_pa(l1: &[u64; ENTRIES_PER_TABLE], va: usize) -> (r: Option<u64>)
    ensures
        r == (if is_table_entry(l1@[l1_slot(va as int)]) {
            Some(output_address(l1@[l1_slot(va as int)]))
        } else {
            None
        }),
{
    let entry = l1[l1_index(va)];

    if is_valid_table(entry) {
        Some(table_address(entry))
    } else {
        None
    }
}

/// Install an L2 table descriptor in L1 at the VA's L1 index.
pub fn install_l2_in_l1(l1: &mut [u64; ENTRIES_PER_TABLE], va: usize, l2_pa: u64)
    ensures
        final(l1)@ == old(l1)@.update(l1_slot(va as int), table_desc(l2_pa)),
{
    let idx = l1_index(va);
    l1[idx] = table_descriptor(l2_pa);
}

/// Remove the L2 table descriptor from L1 at the VA's L1 index.
pub fn remove_l2_from_l1(l1: &mut [u64; ENTRIES_PER_TABLE], va: usize)
    ensures
        final(l1)@ == old(l1)@.update(l1_slot(va as int), 0u64),
{
    let idx = l1_index(va);
    l1[idx] = 0;
}

/// Install a Space's L3 table descriptor in L2 at the VA's L2 index.
pub fn install_space_in_l2(l2: &mut [u64; ENTRIES_PER_TABLE], va: usize, l3_pa: u64)
    ensures
        final(l2)@ == old(l2)@.update(l2_slot(va as int), table_desc(l3_pa)),
{
    let idx = l2_index(va);
    l2[idx] = table_descriptor(l3_pa);
}

/// Remove a Space's L3 table descriptor from L2 at the VA's L2 index.
///
/// Returns `true` if the L2 table is now completely empty (all entries
/// invalid), `false` otherwise. The caller uses this to decide whether
/// to free the L2 table and clear the L1 entry.
pub fn remove_space_from_l2(l2: &mut [u64; ENTRIES_PER_TABLE], va: usize) -> (now_empty: bool)
    ensures
        final(l2)@ == old(l2)@.update(l2_slot(va as int), 0u64),
        now_empty == all_zero(final(l2)@),
{
    let idx = l2_index(va);
    l2[idx] = 0;

    l2_is_empty(l2)
}

/// Check whether an L2 entry already maps to a specific L3 table
/// (duplicate detection).
///
/// Returns `true` if the L2 entry at the VA's L2 index is a valid table
/// descriptor pointing to `l3_pa`.
pub fn l2_maps_space(l2: &[u64; ENTRIES_PER_TABLE], va: usize, l3_pa: u64) -> (b: bool)
    ensures
        b == (is_table_entry(l2@[l2_slot(va as int)]) && output_address(l2@[l2_slot(va as int)])
            == l3_pa),
{
    let entry = l2[l2_index(va)];

    is_valid_table(entry) && table_address(entry) == l3_pa
}

/// Check if an L2 table has no valid entries.
pub fn l2_is_empty(l2: &[u64; ENTRIES_PER_TABLE]) -> (b: bool)
    ensures
        b == all_zero(l2@),
{
    table_is_zero(l2)
}

/// Count valid table descriptors in an L2 table.
pub fn count_valid_l2_entries(l2: &[u64; ENTRIES_PER_TABLE]) -> (n: usize)
    ensures
        n == count_tables(l2@),
{
    let mut n: usize = 0;
    let mut i: usize = 0;
    while i < ENTRIES_PER_TABLE
        invariant
            i <= ENTRIES_PER_TABLE,
            l2@.len() == ENTRIES_PER_TABLE,
            n == count_tables(l2@.take(i as int)),
            n <= i,
        decreases ENTRIES_PER_TABLE - i,
    {
        assert(l2@.take(i as int + 1).drop_last() == l2@.take(i as int));
        if is_valid_table(l2[i]) {
            n += 1;
        }
        i += 1;
    }
    assert(l2@.take(ENTRIES_PER_TABLE as int) == l2@);
    n
}

/// Count valid page descriptors in an L3 table.
pub fn count_valid_l3_pages(l3: &[u64; ENTRIES_PER_TABLE]) -> (n: usize)
    ensures
        n == count_pages(l3@),
{
    let mut n: usize = 0;
    let mut i: usize = 0;
    while i < ENTRIES_PER_TABLE
        invariant
            i <= ENTRIES_PER_TABLE,
            l3@.len() == ENTRIES_PER_TABLE,
            n == count_pages(l3@.take(i as int)),
            n <= i,
        decreases ENTRIES_PER_TABLE - i,
    {
        assert(l3@.take(i as int + 1).drop_last() == l3@.take(i as int));
        if is_valid_page(l3[i]) {
            n += 1;
        }
        i += 1;
    }
    assert(l3@.take(ENTRIES_PER_TABLE as int) == l3@);
    n
}

/// Installing an L2 table for `va` in an L1 table makes the lookup for `va`
/// report that table's address (for an address that is 16 KiB aligned and
/// inside the 48-bit PA field); removing it again makes the lookup report
/// no table. Entries for other slots are untouched either way.
pub proof fn law_l1_install_then_lookup(l1: Seq<u64>, va: int, l2_pa: u64)
    requires
        l1.len() == ENTRIES_PER_TABLE,
        va >= 0,
        l2_pa & 0x0000_FFFF_FFFF_C000u64 == l2_pa,
    ensures
        is_table_entry(l1.update(l1_slot(va), table_desc(l2_pa))[l1_slot(va)]),
        output_address(l1.update(l1_slot(va), table_desc(l2_pa))[l1_slot(va)]) == l2_pa,
        !is_table_entry(
            l1.update(l1_slot(va), table_desc(l2_pa)).update(l1_slot(va), 0u64)[l1_slot(va)],
        ),
        forall|j: int|
            0 <= j < ENTRIES_PER_TABLE && j != l1_slot(va) ==> l1.update(
                l1_slot(va),
                table_desc(l2_pa),
            )[j] == l1[j],
{
    lemma_table_descriptor_fields(l2_pa);
    lemma_zero_entry_invalid();
}

/// Installing a Space's L3 table for `va` in an L2 table makes
/// `l2_maps_space` hold for that VA and L3 address (for an address that is
/// 16 KiB aligned and inside the 48-bit PA field), and removing it makes it
/// fail; other slots keep their entries.
pub proof fn law_l2_install_then_maps_space(l2: Seq<u64>, va: int, l3_pa: u64)
    requires
        l2.len() == ENTRIES_PER_TABLE,
        va >= 0,
        l3_pa & 0x0000_FFFF_FFFF_C000u64 == l3_pa,
    ensures
        is_table_entry(l2.update(l2_slot(va), table_desc(l3_pa))[l2_slot(va)]),
        output_address(l2.update(l2_slot(va), table_desc(l3_pa))[l2_slot(va)]) == l3_pa,
        !is_table_entry(
            l2.update(l2_slot(va), table_desc(l3_pa)).update(l2_slot(va), 0u64)[l2_slot(va)],
        ),
        forall|j: int|
            0 <= j < ENTRIES_PER_TABLE && j != l2_slot(va) ==> l2.update(
                l2_slot(va),
                table_desc(l3_pa),
            )[j] == l2[j],
{
    lemma_table_descriptor_fields(l3_pa);
    lemma_zero_entry_invalid();
}

// ── Range validation ───────────────────────────────────────────────

/// Errors from page table mapping operations.
#[derive(Clone, Copy, Debug, PartialEq, Eq, Structural)]
pub enum MapError {
    OutOfMemory,
    OutOfRange,
    VaOverflow,
}

/// Validate that a VA range fits within the user address space.
///
/// `VaOverflow` when the byte length or the end address does not fit in a
/// `usize`; otherwise `OutOfRange` when the range ends past
/// [`USER_VA_END`].
pub fn validate_user_range(va_base: usize, page_count: usize) -> (r: Result<(), MapError>)
    ensures
        r == (if range_bytes(page_count as int) > usize::MAX || va_base + range_bytes(
            page_count as int,
        ) > usize::MAX {
            Err(MapError::VaOverflow)
        } else if va_base + range_bytes(page_count as int) > USER_VA_END {
            Err(MapError::OutOfRange)
        } else {
            Ok(())
        }),
{
    let byte_count = match page_count.checked_mul(PAGE_SIZE) {
        Some(n) => n,
        None => return Err(MapError::VaOverflow),
    };

    if va_base > usize::MAX - byte_count {
        return Err(MapError::VaOverflow);
    }
    if va_base + byte_count > USER_VA_END {
        return Err(MapError::OutOfRange);
    }

    Ok(())
}

} // verus!
