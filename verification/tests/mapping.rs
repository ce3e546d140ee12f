use kernel::frame::arch::page_table::{
    ENTRIES_PER_TABLE, MapError, SPACE_VA_ALIGNMENT, l1_l2_table_pa, l2_maps_space,
};
use kernel::frame::mapping::{
    UnmapOutcome, install_space_tables, l2_for_space, remove_space_tables,
};
use kernel::kernel_state::TlbInvalidation;
use kernel::space_manager::{RootPool, SpaceManager};

fn pool(pages: usize) -> SpaceManager {
    SpaceManager {
        root_pool: RootPool {
            total_bytes: pages * 16384,
            free_bytes: pages * 16384,
            page_size: 16384,
        },
        next_physical_base: 0x4000_0000,
        next_va_base: 16384,
    }
}

#[test]
fn map_allocates_l2_then_reuses_it() {
    let mut sm = pool(4);
    let mut l1 = [0u64; ENTRIES_PER_TABLE];
    let mut l2 = [0xFFu64; ENTRIES_PER_TABLE];
    let va = 3 * SPACE_VA_ALIGNMENT;
    let (l2_pa, fresh) = l2_for_space(&l1, va, &mut sm).unwrap();

    assert_eq!((l2_pa, fresh), (0x4000_0000, true));
    assert_eq!(sm.root_pool.free_bytes, 3 * 16384);
    assert!(install_space_tables(&mut l1, &mut l2, va, l2_pa, fresh, 0x5000_0000));
    assert_eq!(l1_l2_table_pa(&l1, va), Some(0x4000_0000));
    assert!(l2_maps_space(&l2, va, 0x5000_0000));
    assert_eq!(l2.iter().filter(|e| **e != 0).count(), 1, "fresh L2 is cleared first");

    // Second Space in the same 64 GiB region: the L2 table is reused.
    let va2 = 4 * SPACE_VA_ALIGNMENT;

    assert_eq!(l2_for_space(&l1, va2, &mut sm), Ok((0x4000_0000, false)));
    assert_eq!(sm.root_pool.free_bytes, 3 * 16384);
    assert!(install_space_tables(&mut l1, &mut l2, va2, 0x4000_0000, false, 0x6000_0000));

    // Mapping the same Space again installs nothing.
    assert!(!install_space_tables(&mut l1, &mut l2, va2, 0x4000_0000, false, 0x6000_0000));
}

#[test]
fn map_without_pool_page_fails() {
    let mut sm = pool(0);
    let l1 = [0u64; ENTRIES_PER_TABLE];

    assert_eq!(l2_for_space(&l1, 0, &mut sm), Err(MapError::OutOfMemory));
    assert_eq!(sm.next_physical_base, 0x4000_0000);
}

#[test]
fn unmap_frees_empty_l2_and_picks_invalidation() {
    let mut sm = pool(4);
    let mut l1 = [0u64; ENTRIES_PER_TABLE];
    let mut l2 = [0u64; ENTRIES_PER_TABLE];
    let va_a = 0;
    let va_b = SPACE_VA_ALIGNMENT;
    let (l2_pa, fresh) = l2_for_space(&l1, va_a, &mut sm).unwrap();

    install_space_tables(&mut l1, &mut l2, va_a, l2_pa, fresh, 0x5000_0000);
    install_space_tables(&mut l1, &mut l2, va_b, l2_pa, false, 0x5100_0000);

    // Wrong L3 table: nothing happens.
    assert_eq!(
        remove_space_tables(&mut l1, &mut l2, va_a, 0x7000_0000, 4),
        UnmapOutcome::NotMapped
    );
    assert_eq!(
        remove_space_tables(&mut l1, &mut l2, va_a, 0x5000_0000, 4),
        UnmapOutcome::Unmapped { free_l2: false, tlb: TlbInvalidation::PerPage }
    );
    assert_eq!(
        remove_space_tables(&mut l1, &mut l2, va_b, 0x5100_0000, 2048),
        UnmapOutcome::Unmapped { free_l2: true, tlb: TlbInvalidation::WholeAsid }
    );
    assert_eq!(l1_l2_table_pa(&l1, va_a), None);
}
