//! Wiring a Space's L3 table into an Observer's page tables, and removing
//! it again: the table edits and the decisions around them.
//!
//! Mapping takes two steps, because the L2 table can only be reached once
//! its physical address is known: [`l2_for_space`] finds the L2 table for
//! the Space's VA in the Observer's L1 table, drawing a fresh page from the
//! root pool when there is none; [`install_space_tables`] then clears a
//! fresh L2 table, links it from L1, and installs the Space's L3 table in
//! it unless it is already there. Unmapping ([`remove_space_tables`])
//! removes the L3 link, unlinks an L2 table that became empty so that its
//! page can go back to the pool, and picks the TLB invalidation.

use crate::frame::arch::page_table::{
    ENTRIES_PER_TABLE, MapError, all_zero, install_l2_in_l1, install_space_in_l2,
    is_table_entry, l1_l2_table_pa, l1_slot, l2_maps_space, l2_slot, output_address,
    remove_l2_from_l1, remove_space_from_l2, table_desc,
};
use crate::kernel_state::{ASID_TLBI_THRESHOLD, TlbInvalidation, tlb_invalidation_for};
use crate::space_manager::{SpaceManager, after_allocate, allocate_result, allocation_fits};
use vstd::prelude::*;

verus! {

/// The L2 table for `va` recorded in an L1 table, if any.
pub open spec fn l2_in_l1(l1: Seq<u64>, va: int) -> Option<u64> {
    if is_table_entry(l1[l1_slot(va)]) {
        Some(output_address(l1[l1_slot(va)]))
    } else {
        None
    }
}

/// An L2 table already links the Space's L3 table at `va`.
pub open spec fn maps_space(l2: Seq<u64>, va: int, l3_pa: u64) -> bool {
    is_table_entry(l2[l2_slot(va)]) && output_address(l2[l2_slot(va)]) == l3_pa
}

/// Find the L2 table that covers `va`: the one the L1 table links, or a
/// page freshly drawn from the root pool (`true` in the result) when L1
/// has none. Fails with `OutOfMemory`, changing nothing, when the pool
/// cannot supply the page.
pub fn l2_for_space(l1: &[u64; ENTRIES_PER_TABLE], va: usize, sm: &mut SpaceManager) -> (r: Result<
    (u64, bool),
    MapError,
>)
    requires
        allocation_fits(*old(sm), 1),
    ensures
        l2_in_l1(l1@, va as int) matches Some(pa) ==> r == Ok::<(u64, bool), MapError>((pa, false))
            && *final(sm) == *old(sm),
        l2_in_l1(l1@, va as int) is None ==> {
            &&& *final(sm) == after_allocate(*old(sm), 1)
            &&& allocate_result(*old(sm), 1) matches Ok(pa) ==> r == Ok::<(u64, bool), MapError>(
                (pa as u64, true),
            )
            &&& allocate_result(*old(sm), 1) is Err ==> r == Err::<(u64, bool), MapError>(
                MapError::OutOfMemory,
            )
        },
{
    match l1_l2_table_pa(l1, va) {
        Some(pa) => Ok((pa, false)),
        None => match sm.allocate_pages(1) {
            Ok(pa) => Ok((pa as u64, true)),
            Err(_) => Err(MapError::OutOfMemory),
        },
    }
}

/// Link a Space's L3 table at `va`, given the L2 table found by
/// [`l2_for_space`]. A fresh L2 table is cleared and linked from L1 first.
/// Returns `false`, installing nothing, when the L2 table already links
/// this L3 table (the same Space mapped twice).
pub fn install_space_tables(
    l1: &mut [u64; ENTRIES_PER_TABLE],
    l2: &mut [u64; ENTRIES_PER_TABLE],
    va: usize,
    l2_pa: u64,
    fresh: bool,
    l3_pa: u64,
) -> (installed: bool)
    ensures
        final(l1)@ == (if fresh {
            old(l1)@.update(l1_slot(va as int), table_desc(l2_pa))
        } else {
            old(l1)@
        }),
        ({
            let start = if fresh {
                Seq::new(ENTRIES_PER_TABLE as nat, |i: int| 0u64)
            } else {
                old(l2)@
            };
            &&& installed == !maps_space(start, va as int, l3_pa)
            &&& final(l2)@ == (if installed {
                start.update(l2_slot(va as int), table_desc(l3_pa))
            } else {
                start
            })
        }),
{
    if fresh {
        let mut i: usize = 0;
        while i < ENTRIES_PER_TABLE
            invariant
                i <= ENTRIES_PER_TABLE,
                l2@.len() == ENTRIES_PER_TABLE,
                forall|j: int| 0 <= j < i ==> l2@[j] == 0u64,
            decreases ENTRIES_PER_TABLE - i,
        {
            l2[i] = 0;
            i += 1;
        }
        assert(l2@ =~= Seq::new(ENTRIES_PER_TABLE as nat, |i: int| 0u64));
        install_l2_in_l1(l1, va, l2_pa);
    }
    if l2_maps_space(l2, va, l3_pa) {
        return false;
    }
    install_space_in_l2(l2, va, l3_pa);
    true
}

/// What unmapping a Space from an Observer leaves to do.
#[derive(Clone, Copy, Debug, PartialEq, Eq, Structural)]
pub enum UnmapOutcome {
    /// The L2 table did not link this Space's L3 table: nothing changed.
    NotMapped,
    /// The link was removed. When `free_l2` is set the L2 table became
    /// empty and was unlinked from L1, and its page goes back to the pool;
    /// `tlb` says how to invalidate the Space's stale translations.
    Unmapped { free_l2: bool, tlb: TlbInvalidation },
}

/// Remove a Space's L3 table from an Observer's page tables, given the L2
/// table that L1 links for `va`. When that leaves the L2 table empty it is
/// unlinked from L1 too. TLB invalidation goes by VA for Spaces of up to
/// [`ASID_TLBI_THRESHOLD`] pages and by ASID above that.
pub fn remove_space_tables(
    l1: &mut [u64; ENTRIES_PER_TABLE],
    l2: &mut [u64; ENTRIES_PER_TABLE],
    va: usize,
    l3_pa: u64,
    page_count: usize,
) -> (outcome: UnmapOutcome)
    ensures
        !maps_space(old(l2)@, va as int, l3_pa) ==> outcome == UnmapOutcome::NotMapped
            && final(l1)@ == old(l1)@ && final(l2)@ == old(l2)@,
        maps_space(old(l2)@, va as int, l3_pa) ==> {
            let l2_after = old(l2)@.update(l2_slot(va as int), 0u64);
            let empty = all_zero(l2_after);
            &&& final(l2)@ == l2_after
            &&& final(l1)@ == (if empty {
                old(l1)@.update(l1_slot(va as int), 0u64)
            } else {
                old(l1)@
            })
            &&& outcome == (UnmapOutcome::Unmapped {
                free_l2: empty,
                tlb: if page_count <= ASID_TLBI_THRESHOLD {
                    TlbInvalidation::PerPage
                } else {
                    TlbInvalidation::WholeAsid
                },
            })
        },
{
    if !l2_maps_space(l2, va, l3_pa) {
        return UnmapOutcome::NotMapped;
    }
    let empty = remove_space_from_l2(l2, va);
    if empty {
        remove_l2_from_l1(l1, va);
    }
    UnmapOutcome::Unmapped { free_l2: empty, tlb: tlb_invalidation_for(page_count) }
}

/// Mapping a Space and then unmapping it restores an L2 table whose slot
/// for the Space was empty, and asks to free the L2 table exactly when
/// nothing else is mapped in it.
pub proof fn law_install_then_remove_restores(l2: Seq<u64>, va: int, l3_pa: u64)
    requires
        l2.len() == ENTRIES_PER_TABLE,
        va >= 0,
        l2[l2_slot(va)] == 0u64,
        l3_pa & 0x0000_FFFF_FFFF_C000u64 == l3_pa,
    ensures
        maps_space(l2.update(l2_slot(va), table_desc(l3_pa)), va, l3_pa),
        l2.update(l2_slot(va), table_desc(l3_pa)).update(l2_slot(va), 0u64) == l2,
{
    crate::frame::arch::page_table::lemma_table_descriptor_fields(l3_pa);
    assert(l2.update(l2_slot(va), table_desc(l3_pa)).update(l2_slot(va), 0u64) =~= l2);
}

} // verus!
