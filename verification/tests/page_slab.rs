use kernel::arena::{AllocError, ObjectId};
use kernel::frame::page_slab::PageSlabStore;
use kernel::space_manager::{RootPool, SpaceManager};

fn pool(pages: usize) -> SpaceManager {
    SpaceManager {
        root_pool: RootPool {
            total_bytes: pages * 4096,
            free_bytes: pages * 4096,
            page_size: 4096,
        },
        next_physical_base: 0x10_0000,
        next_va_base: 4096,
    }
}

#[derive(Debug, Default, PartialEq, Eq)]
struct Record {
    value: u64,
    tag: u64,
}

#[test]
fn page_slab_first_allocation_draws_one_page() {
    let mut sm = pool(4);
    let mut store: PageSlabStore<Record> = PageSlabStore::new();

    assert!(store.get(ObjectId(0)).is_none());

    let (id, obj) = store.allocate(&mut sm).unwrap();

    obj.value = 5;

    assert_eq!(id, ObjectId(0));
    assert_eq!(sm.root_pool.free_bytes, 3 * 4096);
    assert_eq!(sm.next_physical_base, 0x10_0000 + 4096);

    let (id, _) = store.insert(&mut sm, Record { value: 6, tag: 1 }).unwrap();

    assert_eq!(id, ObjectId(1));
    assert_eq!(sm.root_pool.free_bytes, 3 * 4096, "later allocations draw no page");
    assert_eq!(store.get(ObjectId(0)).unwrap().value, 5);
}

#[test]
fn page_slab_empty_pool_fails_without_change() {
    let mut sm = pool(0);
    let mut store: PageSlabStore<Record> = PageSlabStore::new();

    assert_eq!(store.allocate(&mut sm).err(), Some(AllocError::OutOfMemory));
    assert_eq!(sm.next_physical_base, 0x10_0000);
    assert!(store.get(ObjectId(0)).is_none());
}

#[test]
fn page_slab_capacity_is_page_over_stride() {
    // 16-byte records: 4096 / 16 = 256 slots.
    let mut sm = pool(1);
    let mut store: PageSlabStore<Record> = PageSlabStore::new();

    for i in 0..256u32 {
        let (id, _) = store.allocate(&mut sm).unwrap();

        assert_eq!(id, ObjectId(i));
    }

    assert_eq!(store.allocate(&mut sm).err(), Some(AllocError::OutOfMemory));
}

#[test]
fn page_slab_small_objects_take_four_bytes() {
    // u8 objects still need room for a free-list index: 4096 / 4 = 1024
    // slots would exceed the occupancy map, so use a 2 KiB page: 512 slots.
    let mut sm = SpaceManager {
        root_pool: RootPool {
            total_bytes: 2048,
            free_bytes: 2048,
            page_size: 2048,
        },
        next_physical_base: 0,
        next_va_base: 2048,
    };
    let mut store: PageSlabStore<u8> = PageSlabStore::new();

    for _ in 0..512 {
        store.insert(&mut sm, 1).unwrap();
    }

    assert!(store.insert(&mut sm, 1).is_err());
}

#[test]
fn page_slab_free_is_lifo_and_ignores_double_free() {
    let mut sm = pool(1);
    let mut store: PageSlabStore<Record> = PageSlabStore::new();

    for _ in 0..3 {
        store.allocate(&mut sm).unwrap();
    }

    store.free(ObjectId(1));
    store.free(ObjectId(1));
    store.free(ObjectId(500));

    assert!(store.get(ObjectId(1)).is_none());

    let (reused, _) = store.allocate(&mut sm).unwrap();
    let (fresh, _) = store.allocate(&mut sm).unwrap();

    assert_eq!(reused, ObjectId(1));
    assert_eq!(fresh, ObjectId(3), "a double free must not hand out a slot twice");
}

#[test]
fn page_slab_get_mut_and_for_each_mut() {
    let mut sm = pool(1);
    let mut store: PageSlabStore<Record> = PageSlabStore::new();

    for i in 0..3u64 {
        store.insert(&mut sm, Record { value: i, tag: 0 }).unwrap();
    }

    store.get_mut(ObjectId(2)).unwrap().value = 20;
    store.free(ObjectId(1));

    let mut seen = Vec::new();

    store.for_each_mut(|id, r| {
        seen.push(id);
        r.tag = 7;
    });

    assert_eq!(seen, vec![ObjectId(0), ObjectId(2)]);
    assert_eq!(store.get(ObjectId(2)), Some(&Record { value: 20, tag: 7 }));
    assert!(store.get_mut(ObjectId(1)).is_none());
}
