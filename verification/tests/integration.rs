use kernel::space_manager::{RootPool, SpaceManager};

#[test]
fn test_integration_wave2_space_manager_conservation_slab_lifecycle() {
    // 1. Create a SpaceManager with 16 pages.
    let mut space_manager = SpaceManager {
        root_pool: RootPool {
            total_bytes: 16 * 4096,
            free_bytes: 16 * 4096,
            page_size: 4096,
        },
        next_physical_base: 4096,
        next_va_base: 4096,
    };
    let initial_free = space_manager.root_pool.free_bytes;
    let page_size = space_manager.root_pool.page_size;
    // 2. Simulate arena slab: allocate 4 pages (one slab page each for
    //    four object arenas).
    let base_a = space_manager
        .allocate_pages(4)
        .expect("slab alloc A must succeed");
    let base_b = space_manager
        .allocate_pages(2)
        .expect("slab alloc B must succeed");
    let after_alloc = space_manager.root_pool.free_bytes;

    assert_eq!(
        after_alloc,
        initial_free - 6 * page_size,
        "conservation: 6 pages allocated must reduce free_bytes by 6 * page_size"
    );

    // 3. Simulate usage — nothing to do, pages are "live".

    // 4. Return the slab pages (simulating arena slab freeing when all
    //    slots on the slab are freed).
    space_manager.return_pages(base_a, 4);
    space_manager.return_pages(base_b, 2);

    // 5. Conservation: free_bytes must be restored to its initial value.
    assert_eq!(
        space_manager.root_pool.free_bytes, initial_free,
        "conservation: free_bytes must equal initial after allocate+return cycle"
    );
    // 6. free_bytes must never exceed total_bytes.
    assert!(
        space_manager.root_pool.free_bytes <= space_manager.root_pool.total_bytes,
        "conservation: free_bytes ({}) must never exceed total_bytes ({})",
        space_manager.root_pool.free_bytes,
        space_manager.root_pool.total_bytes
    );
}

#[test]
fn test_integration_wave2_type_conversion_overhead_and_allocate_accounting() {
    let mut space_manager = SpaceManager {
        root_pool: RootPool {
            total_bytes: 64 * 4096,
            free_bytes: 64 * 4096,
            page_size: 4096,
        },
        next_physical_base: 4096,
        next_va_base: 4096,
    };
    let page_size = space_manager.root_pool.page_size;
    let child_size_bytes = 8 * page_size; // 8 pages for the child Space
    // 1. Compute the overhead for a child Space of child_size_bytes.
    //    This is a pure function — no state change.
    let overhead_bytes = space_manager.type_conversion_overhead(child_size_bytes);

    // 2. Overhead must be representable as a whole number of pages.
    //    (The implementation computes it in bytes; we verify rounding.)
    assert_eq!(
        overhead_bytes % page_size,
        0,
        "type_conversion_overhead must return a page-aligned byte count \
         (got {overhead_bytes} bytes, page_size={page_size})"
    );

    // 3. Total pages to allocate: child pages + overhead pages.
    let overhead_pages = overhead_bytes / page_size;
    let child_pages = child_size_bytes / page_size;
    let total_pages = child_pages + overhead_pages;
    let initial_free = space_manager.root_pool.free_bytes;

    // 4. Allocate child_pages + overhead_pages: must succeed since the
    //    pool has 64 pages and overhead for 8 pages is small.
    space_manager
        .allocate_pages(total_pages)
        .expect("allocate child + overhead pages must succeed");

    // 5. free_bytes must have decreased by exactly total_pages * page_size.
    let expected_free = initial_free - total_pages * page_size;

    assert_eq!(
        space_manager.root_pool.free_bytes, expected_free,
        "parent pool must shrink by child_pages ({child_pages}) + \
         overhead_pages ({overhead_pages}) = {total_pages} pages total"
    );
}

