//! Page-backed slab store: the arena backing used on hardware.
//!
//! A store holds its objects in one page drawn from the Space manager's
//! root pool on first use. The page is cut into slots of a fixed stride:
//! `max(size_of::<T>(), 4)` rounded up to `align_of::<T>()`, so that a slot
//! can hold either an object or the index of the next free slot. The free
//! slots form a list threaded through the slots themselves, initially in
//! ascending order; allocation pops its head and freeing pushes onto it.
//! Occupancy is tracked per slot, so a double free is ignored.

use crate::arena::{AllocError, ObjectId};
use crate::space_manager::{SpaceManager, after_allocate, allocate_result, allocation_fits};
use vstd::layout::{align_of, size_of};
use vstd::prelude::*;

verus! {

/// End-of-list marker of the free list.
pub const FREELIST_NONE: u32 = 0xFFFF_FFFF;

/// Most slots one page may be cut into (the size of the occupancy map).
pub const MAX_SLOTS_PER_PAGE: usize = 512;

/// Byte distance between consecutive slots for objects of type `T`:
/// room for the object or a free-list index, rounded up to the alignment.
pub open spec fn slot_stride_of<T>() -> int {
    let m = if size_of::<T>() >= 4 {
        size_of::<T>() as int
    } else {
        4
    };
    let a = align_of::<T>() as int;
    if m % a == 0 {
        m
    } else {
        m + (a - m % a)
    }
}

/// A page of `page_size` bytes can back a store of `T`: `T` is not zero
/// sized, its stride is computable, and the page holds between one and
/// [`MAX_SLOTS_PER_PAGE`] slots.
pub open spec fn page_layout_fits<T>(page_size: usize) -> bool {
    let m = if size_of::<T>() >= 4 {
        size_of::<T>() as int
    } else {
        4
    };
    &&& size_of::<T>() > 0
    &&& m + align_of::<T>() <= usize::MAX
    &&& 1 <= page_size as int / slot_stride_of::<T>() <= MAX_SLOTS_PER_PAGE
}

/// The free list of a freshly cut page of `capacity` slots: every slot, in
/// ascending order.
pub open spec fn fresh_free_list(capacity: nat) -> Seq<u32> {
    Seq::new(capacity, |k: int| k as u32)
}

/// Page-backed slab store.
pub struct PageSlabStore<T> {
    /// Physical address of the backing page, once drawn from the pool.
    page: Option<usize>,
    /// Slot contents: `Some` = occupied; one entry per slot of the page.
    slots: Vec<Option<T>>,
    /// For a free slot, the index of the next free slot (or
    /// [`FREELIST_NONE`]).
    links: Vec<u32>,
    /// First free slot, or [`FREELIST_NONE`].
    free_head: u32,
    /// The free list from its head, for the proofs.
    free_order: Ghost<Seq<u32>>,
}

impl<T> PageSlabStore<T> {
    /// Occupied slots and the objects they hold.
    pub closed spec fn contents(&self) -> Map<u32, T> {
        Map::new(
            |id: u32| (id as int) < self.slots@.len() && self.slots@[id as int] is Some,
            |id: u32| self.slots@[id as int]->Some_0,
        )
    }

    /// Free slots in the order allocation takes them: the next one first.
    pub closed spec fn free_list(&self) -> Seq<u32> {
        self.free_order@
    }

    /// Number of slots of the page (0 before the page is drawn).
    pub closed spec fn capacity(&self) -> nat {
        self.slots@.len()
    }

    /// The backing page, once drawn.
    pub closed spec fn page(&self) -> Option<usize> {
        self.page
    }

    /// Internal consistency: one link per slot; the free list follows the
    /// links from the head, holds each free slot exactly once and nothing
    /// else; no page means no slots.
    pub closed spec fn wf(&self) -> bool {
        let fo = self.free_order@;
        &&& self.slots@.len() == self.links@.len()
        &&& self.slots@.len() <= MAX_SLOTS_PER_PAGE
        &&& self.page is None ==> self.slots@.len() == 0
        &&& fo.no_duplicates()
        &&& forall|k: int|
            0 <= k < fo.len() ==> (#[trigger] fo[k] as int) < self.slots@.len()
                && self.slots@[fo[k] as int] is None && self.links@[fo[k] as int] == (if k + 1
                < fo.len() {
                fo[k + 1]
            } else {
                FREELIST_NONE
            })
        &&& forall|i: int|
            0 <= i < self.slots@.len() && #[trigger] self.slots@[i] is None ==> fo.contains(
                i as u32,
            )
        &&& self.free_head == (if fo.len() > 0 {
            fo[0]
        } else {
            FREELIST_NONE
        })
    }

    /// The free list an allocation works from: a fresh page's when the page
    /// is still to be drawn.
    pub open spec fn free_list_for(&self, page_size: usize) -> Seq<u32> {
        if self.page() is None {
            fresh_free_list((page_size as int / slot_stride_of::<T>()) as nat)
        } else {
            self.free_list()
        }
    }

    /// Create an empty store. No page is drawn until the first allocation.
    pub fn new() -> (store: PageSlabStore<T>)
        ensures
            store.wf(),
            store.page() is None,
            store.contents() == Map::<u32, T>::empty(),
            store.free_list() == Seq::<u32>::empty(),
            store.capacity() == 0,
    {
        let store = PageSlabStore {
            page: None,
            slots: Vec::new(),
            links: Vec::new(),
            free_head: FREELIST_NONE,
            free_order: Ghost(Seq::empty()),
        };
        assert(store.contents() =~= Map::<u32, T>::empty());
        store
    }

    /// Byte distance between consecutive slots.
    fn slot_stride() -> (stride: usize)
        requires
            (if size_of::<T>() >= 4 {
                size_of::<T>() as int
            } else {
                4
            }) + align_of::<T>() <= usize::MAX,
        ensures
            stride == slot_stride_of::<T>(),
            stride > 0,
    {
        proof {
            broadcast use vstd::layout::align_nonzero;

            assert(align_of::<T>() > 0);
        }
        let size = core::mem::size_of::<T>();
        let align = core::mem::align_of::<T>();
        let min_size = if size >= 4 {
            size
        } else {
            4
        };
        let rem = min_size % align;
        if rem == 0 {
            min_size
        } else {
            min_size + (align - rem)
        }
    }

    /// Draw the backing page from the root pool and thread every slot onto
    /// the free list in ascending order.
    fn init_page(&mut self, sm: &mut SpaceManager) -> (r: Result<(), AllocError>)
        requires
            old(self).wf(),
            old(self).page() is None,
            allocation_fits(*old(sm), 1),
            page_layout_fits::<T>(old(sm).root_pool.page_size),
        ensures
            r == (match allocate_result(*old(sm), 1) {
                Ok(_) => Ok::<(), AllocError>(()),
                Err(e) => Err(e),
            }),
            *final(sm) == after_allocate(*old(sm), 1),
            r is Err ==> *final(self) == *old(self),
            r is Ok ==> {
                &&& final(self).wf()
                &&& final(self).page() == Some(allocate_result(*old(sm), 1)->Ok_0)
                &&& final(self).contents() == Map::<u32, T>::empty()
                &&& final(self).capacity() == old(sm).root_pool.page_size as int / slot_stride_of::<T>()
                &&& final(self).free_list() == fresh_free_list(final(self).capacity())
            },
    {
        let page_size = sm.root_pool.page_size;
        let pa = match sm.allocate_pages(1) {
            Ok(pa) => pa,
            Err(e) => return Err(e),
        };
        let stride = Self::slot_stride();
        let capacity = page_size / stride;
        let mut slots: Vec<Option<T>> = Vec::new();
        let mut links: Vec<u32> = Vec::new();
        let mut i: usize = 0;
        while i < capacity
            invariant
                capacity <= MAX_SLOTS_PER_PAGE,
                i <= capacity,
                slots@.len() == i,
                links@.len() == i,
                forall|j: int| 0 <= j < i ==> #[trigger] slots@[j] is None,
                forall|j: int|
                    0 <= j < i ==> #[trigger] links@[j] == (if j + 1 < capacity {
                        (j + 1) as u32
                    } else {
                        FREELIST_NONE
                    }),
            decreases capacity - i,
        {
            slots.push(None);
            links.push(
                if i + 1 < capacity {
                    (i + 1) as u32
                } else {
                    FREELIST_NONE
                },
            );
            i += 1;
        }
        let ghost fo = fresh_free_list(capacity as nat);
        proof {
            assert forall|a: int, b: int| 0 <= a < fo.len() && 0 <= b < fo.len() && a != b implies fo[a]
                != fo[b] by {}
            assert forall|j: int| 0 <= j < slots@.len() && #[trigger] slots@[j] is None implies fo.contains(
                j as u32,
            ) by {
                assert(fo[j] == j as u32);
            }
        }
        self.page = Some(pa);
        self.slots = slots;
        self.links = links;
        self.free_head = if capacity > 0 {
            0
        } else {
            FREELIST_NONE
        };
        self.free_order = Ghost(fo);
        proof {
            assert(self.contents() =~= Map::<u32, T>::empty());
        }
        Ok(())
    }

    /// Take the head of the free list for `value` (the page is drawn).
    fn take_free_slot(&mut self, value: T) -> (r: Result<(ObjectId, &mut T), AllocError>)
        requires
            old(self).wf(),
        ensures
            final(self).wf(),
            final(self).page() == old(self).page(),
            final(self).capacity() == old(self).capacity(),
            (old(self).free_list().len() > 0) <==> r is Ok,
            r matches Ok((id, v)) ==> {
                &&& id.0 == old(self).free_list()[0]
                &&& !old(self).contents().dom().contains(id.0)
                &&& *v == value
                &&& final(self).contents() == old(self).contents().insert(id.0, *final(v))
                &&& final(self).free_list() == old(self).free_list().drop_first()
            },
            r is Err ==> r == Err::<(ObjectId, &mut T), AllocError>(AllocError::OutOfMemory)
                && *final(self) == *old(self),
    {
        if self.free_head == FREELIST_NONE {
            proof {
                if self.free_order@.len() > 0 {
                    assert((self.free_order@[0] as int) < self.slots@.len());
                }
            }
            return Err(AllocError::OutOfMemory);
        }
        let ghost fo = self.free_order@;
        let index = self.free_head;
        proof {
            assert(fo.len() > 0);
            assert(fo[0] == index);
        }
        let next = self.links[index as usize];
        let ghost slots_before = self.slots@;
        self.free_head = next;
        self.free_order = Ghost(fo.drop_first());
        self.slots.set(index as usize, Some(value));
        proof {
            let nfo = fo.drop_first();
            assert forall|k: int| 0 <= k < nfo.len() implies nfo[k] != index by {
                assert(fo[k + 1] == nfo[k]);
            }
            assert forall|k: int| 0 <= k < nfo.len() implies (#[trigger] nfo[k] as int)
                < self.slots@.len() && self.slots@[nfo[k] as int] is None && self.links@[nfo[k]
                as int] == (if k + 1 < nfo.len() {
                nfo[k + 1]
            } else {
                FREELIST_NONE
            }) by {
                assert(fo[k + 1] == nfo[k]);
            }
            assert forall|i: int|
                0 <= i < self.slots@.len() && #[trigger] self.slots@[i] is None implies nfo.contains(
                i as u32,
            ) by {
                assert(i != index as int);
                assert(slots_before[i] is None);
                let k = choose|k: int| 0 <= k < fo.len() && fo[k] == i as u32;
                assert(k != 0);
                assert(nfo[k - 1] == i as u32);
            }
            assert(self.free_head == (if nfo.len() > 0 {
                nfo[0]
            } else {
                FREELIST_NONE
            }));
        }
        let ghost mid = *self;
        proof {
            assert(mid.contents() =~= old(self).contents().insert(index, value));
        }
        let slot_ref = self.slots[index as usize].as_mut().unwrap();
        Ok((ObjectId(index), slot_ref))
    }

    /// Insert a fully-constructed value.
    ///
    /// The first insertion draws the backing page from the root pool; if
    /// the pool cannot supply it, it fails with `OutOfMemory` and nothing
    /// changes. Takes the head of the free list; fails with `OutOfMemory`,
    /// changing nothing further, when the page is full.
    pub fn insert(&mut self, sm: &mut SpaceManager, value: T) -> (r: Result<
        (ObjectId, &mut T),
        AllocError,
    >)
        requires
            old(self).wf(),
            old(self).page() is None ==> allocation_fits(*old(sm), 1) && page_layout_fits::<T>(
                old(sm).root_pool.page_size,
            ),
        ensures
            final(self).wf(),
            old(self).page() is Some ==> *final(sm) == *old(sm) && final(self).page() == old(
                self,
            ).page() && final(self).capacity() == old(self).capacity(),
            old(self).page() is None ==> *final(sm) == after_allocate(*old(sm), 1),
            old(self).page() is None && allocate_result(*old(sm), 1) is Ok ==> final(self).page()
                == Some(allocate_result(*old(sm), 1)->Ok_0) && final(self).capacity() == old(
                sm,
            ).root_pool.page_size as int / slot_stride_of::<T>(),
            ({
                let drawn = old(self).page() is Some || allocate_result(*old(sm), 1) is Ok;
                let fl = old(self).free_list_for(old(sm).root_pool.page_size);
                &&& (drawn && fl.len() > 0) <==> r is Ok
                &&& r matches Ok((id, v)) ==> {
                    &&& id.0 == fl[0]
                    &&& !old(self).contents().dom().contains(id.0)
                    &&& *v == value
                    &&& final(self).contents() == old(self).contents().insert(id.0, *final(v))
                    &&& final(self).free_list() == fl.drop_first()
                }
                &&& r is Err ==> r == Err::<(ObjectId, &mut T), AllocError>(
                    AllocError::OutOfMemory,
                ) && final(self).contents() == old(self).contents() && (drawn
                    ==> final(self).free_list() == fl)
                &&& !drawn ==> *final(self) == *old(self)
            }),
    {
        if self.page.is_none() {
            proof {
                assert(old(self).contents() =~= Map::<u32, T>::empty());
            }
            match self.init_page(sm) {
                Ok(()) => {},
                Err(e) => {
                    proof {
                        assert(allocate_result(*old(sm), 1) is Err);
                        assert(e == AllocError::OutOfMemory);
                    }
                    return Err(e);
                },
            }
        }
        self.take_free_slot(value)
    }

    /// Look up an object by index: `None` before the page is drawn, out of
    /// bounds, or for a free slot.
    pub fn get(&self, id: ObjectId) -> (r: Option<&T>)
        requires
            self.wf(),
        ensures
            r == (if self.contents().dom().contains(id.0) {
                Some(&self.contents()[id.0])
            } else {
                None
            }),
    {
        let index = id.0 as usize;
        if self.page.is_none() || index >= self.slots.len() {
            return None;
        }
        self.slots[index].as_ref()
    }

    /// Mutable lookup by index: `None` before the page is drawn, out of
    /// bounds, or for a free slot. Writes through the returned reference
    /// become the slot's contents.
    pub fn get_mut(&mut self, id: ObjectId) -> (r: Option<&mut T>)
        requires
            old(self).wf(),
        ensures
            final(self).wf(),
            final(self).free_list() == old(self).free_list(),
            final(self).capacity() == old(self).capacity(),
            final(self).page() == old(self).page(),
            old(self).contents().dom().contains(id.0) <==> r is Some,
            r matches Some(v) ==> *v == old(self).contents()[id.0] && final(self).contents()
                == old(self).contents().insert(id.0, *final(v)),
            r is None ==> final(self).contents() == old(self).contents(),
    {
        let index = id.0 as usize;
        if self.page.is_none() || index >= self.slots.len() {
            return None;
        }
        self.slots[index].as_mut()
    }

    /// Return a slot to the head of the free list.
    ///
    /// Ignores a store without a page, out-of-bounds indices and free
    /// slots (double-free protection).
    pub fn free(&mut self, id: ObjectId)
        requires
            old(self).wf(),
        ensures
            final(self).wf(),
            final(self).capacity() == old(self).capacity(),
            final(self).page() == old(self).page(),
            if old(self).contents().dom().contains(id.0) {
                &&& final(self).contents() == old(self).contents().remove(id.0)
                &&& final(self).free_list() == seq![id.0] + old(self).free_list()
            } else {
                *final(self) == *old(self)
            },
    {
        let index = id.0 as usize;
        if self.page.is_none() || index >= self.slots.len() || self.slots[index].is_none() {
            return;
        }
        let ghost fo = self.free_order@;
        proof {
            assert(!fo.contains(id.0));
        }
        let ghost slots_before = self.slots@;
        self.slots.set(index, None);
        self.links.set(index, self.free_head);
        self.free_head = id.0;
        self.free_order = Ghost(seq![id.0] + fo);
        proof {
            let nfo = seq![id.0] + fo;
            assert(self.contents() =~= old(self).contents().remove(id.0));
            assert forall|a: int, b: int|
                0 <= a < nfo.len() && 0 <= b < nfo.len() && a != b implies nfo[a] != nfo[b] by {
                if a > 0 && b > 0 {
                    assert(nfo[a] == fo[a - 1] && nfo[b] == fo[b - 1]);
                } else if a == 0 {
                    assert(nfo[b] == fo[b - 1]);
                } else {
                    assert(nfo[a] == fo[a - 1]);
                }
            }
            assert forall|k: int| 0 <= k < nfo.len() implies (#[trigger] nfo[k] as int)
                < self.slots@.len() && self.slots@[nfo[k] as int] is None && self.links@[nfo[k]
                as int] == (if k + 1 < nfo.len() {
                nfo[k + 1]
            } else {
                FREELIST_NONE
            }) by {
                if k > 0 {
                    assert(nfo[k] == fo[k - 1]);
                    assert(fo[k - 1] != id.0);
                }
            }
            assert forall|i: int|
                0 <= i < self.slots@.len() && #[trigger] self.slots@[i] is None implies nfo.contains(
                i as u32,
            ) by {
                if i == index as int {
                    assert(nfo[0] == i as u32);
                } else {
                    assert(slots_before[i] is None);
                    let k = choose|k: int| 0 <= k < fo.len() && fo[k] == i as u32;
                    assert(nfo[k + 1] == i as u32);
                }
            }
        }
    }

    /// Call `f` with the id of and a mutable reference to each occupied
    /// slot, in slot order. Each occupied slot ends up holding what `f` left
    /// behind in it; free slots and the free list are untouched.
    pub fn for_each_mut<F: FnMut(ObjectId, &mut T)>(&mut self, mut f: F)
        requires
            old(self).wf(),
            forall|id: ObjectId, v: &mut T| f.requires((id, v)),
        ensures
            final(self).wf(),
            final(self).contents().dom() == old(self).contents().dom(),
            final(self).free_list() == old(self).free_list(),
            final(self).capacity() == old(self).capacity(),
            final(self).page() == old(self).page(),
            forall|id: u32|
                #[trigger] old(self).contents().dom().contains(id) ==> exists|r: &mut T|
                    *r == old(self).contents()[id] && *final(r) == final(self).contents()[id]
                        && #[trigger] call_ensures(f, (ObjectId(id), r), ()),
    {
        if self.page.is_none() {
            return;
        }
        let ghost f0 = f;
        let mut index: usize = 0;
        while index < self.slots.len()
            invariant
                self.wf(),
                f == f0,
                index <= self.slots@.len(),
                self.contents().dom() == old(self).contents().dom(),
                self.free_list() == old(self).free_list(),
                self.capacity() == old(self).capacity(),
                self.page() == old(self).page(),
                forall|id: ObjectId, v: &mut T| f.requires((id, v)),
                forall|id: u32|
                    #[trigger] old(self).contents().dom().contains(id) && (id as int) < index
                        ==> exists|r: &mut T|
                        *r == old(self).contents()[id] && *final(r) == self.contents()[id]
                            && #[trigger] call_ensures(f0, (ObjectId(id), r), ()),
                forall|id: u32|
                    #[trigger] old(self).contents().dom().contains(id) && (id as int) >= index
                        ==> self.contents()[id] == old(self).contents()[id],
            decreases self.slots@.len() - index,
        {
            match self.slots[index].as_mut() {
                Some(value) => {
                    f(ObjectId(index as u32), value);
                },
                None => {},
            }
            index += 1;
        }
    }
}

impl<T: Default> PageSlabStore<T> {
    /// Allocate a slot holding `T::default()`, drawing the backing page on
    /// first use; same slot choice, pool charge and failures as
    /// [`PageSlabStore::insert`].
    pub fn allocate(&mut self, sm: &mut SpaceManager) -> (r: Result<(ObjectId, &mut T), AllocError>)
        requires
            old(self).wf(),
            old(self).page() is None ==> allocation_fits(*old(sm), 1) && page_layout_fits::<T>(
                old(sm).root_pool.page_size,
            ),
        ensures
            final(self).wf(),
            old(self).page() is Some ==> *final(sm) == *old(sm) && final(self).page() == old(
                self,
            ).page() && final(self).capacity() == old(self).capacity(),
            old(self).page() is None ==> *final(sm) == after_allocate(*old(sm), 1),
            old(self).page() is None && allocate_result(*old(sm), 1) is Ok ==> final(self).page()
                == Some(allocate_result(*old(sm), 1)->Ok_0) && final(self).capacity() == old(
                sm,
            ).root_pool.page_size as int / slot_stride_of::<T>(),
            ({
                let drawn = old(self).page() is Some || allocate_result(*old(sm), 1) is Ok;
                let fl = old(self).free_list_for(old(sm).root_pool.page_size);
                &&& (drawn && fl.len() > 0) <==> r is Ok
                &&& r matches Ok((id, v)) ==> {
                    &&& id.0 == fl[0]
                    &&& !old(self).contents().dom().contains(id.0)
                    &&& final(self).contents() == old(self).contents().insert(id.0, *final(v))
                    &&& final(self).free_list() == fl.drop_first()
                }
                &&& r is Err ==> r == Err::<(ObjectId, &mut T), AllocError>(
                    AllocError::OutOfMemory,
                ) && final(self).contents() == old(self).contents() && (drawn
                    ==> final(self).free_list() == fl)
                &&& !drawn ==> *final(self) == *old(self)
            }),
    {
        self.insert(sm, T::default())
    }
}

impl<T> Default for PageSlabStore<T> {
    fn default() -> (store: PageSlabStore<T>)
        ensures
            store.wf(),
            store.page() is None,
            store.contents() == Map::<u32, T>::empty(),
            store.free_list() == Seq::<u32>::empty(),
            store.capacity() == 0,
    {
        PageSlabStore::new()
    }
}

} // verus!
