//! Slab store backing the per-type object arenas.
//!
//! Slots are numbered from 0. Freed slots go on a LIFO freelist and are
//! handed out again before any fresh slot; fresh slots are created on
//! demand up to a fixed maximum that stands for the finite slab pages.

use crate::arena::{AllocError, ObjectId};
use vstd::prelude::*;

verus! {

/// Default slab capacity in slots.
pub const DEFAULT_MAX_SLOTS: u32 = 256;

/// Slab store: `Some` slots are occupied, `None` slots are free and listed
/// on the freelist.
pub struct SlabStore<T> {
    /// Slot storage: `Some` = occupied, `None` = free.
    slots: Vec<Option<T>>,
    /// Indices of free slots (LIFO freelist).
    freelist: Vec<u32>,
    /// Maximum number of slots (finite slab pages).
    max_slots: u32,
}

impl<T> SlabStore<T> {
    /// Occupied slots and the objects they hold.
    pub closed spec fn contents(&self) -> Map<u32, T> {
        Map::new(
            |id: u32| (id as int) < self.slots@.len() && self.slots@[id as int] is Some,
            |id: u32| self.slots@[id as int]->Some_0,
        )
    }

    /// Freed slots, most recently freed last.
    pub closed spec fn free_stack(&self) -> Seq<u32> {
        self.freelist@
    }

    /// Number of slots created so far (freed or occupied).
    pub closed spec fn slot_count(&self) -> nat {
        self.slots@.len()
    }

    /// Maximum number of slots.
    pub closed spec fn capacity(&self) -> nat {
        self.max_slots as nat
    }

    /// Internal consistency: slot count within capacity; the freelist
    /// holds each free slot exactly once and nothing else.
    pub closed spec fn wf(&self) -> bool {
        &&& self.slots@.len() <= self.max_slots
        &&& self.freelist@.no_duplicates()
        &&& forall|k: int|
            0 <= k < self.freelist@.len() ==> (#[trigger] self.freelist@[k] as int)
                < self.slots@.len() && self.slots@[self.freelist@[k] as int] is None
        &&& forall|i: int|
            0 <= i < self.slots@.len() && #[trigger] self.slots@[i] is None
                ==> self.freelist@.contains(i as u32)
    }

    /// The slot the next allocation takes: the most recently freed slot,
    /// or the next fresh one.
    pub open spec fn next_id(&self) -> u32 {
        if self.free_stack().len() > 0 {
            self.free_stack().last()
        } else {
            self.slot_count() as u32
        }
    }

    /// An allocation can succeed: a freed slot exists, or a fresh slot can
    /// still be created.
    pub open spec fn can_allocate(&self) -> bool {
        self.free_stack().len() > 0 || self.slot_count() < self.capacity()
    }

    /// The free stack after an allocation.
    pub open spec fn free_stack_after_alloc(&self) -> Seq<u32> {
        if self.free_stack().len() > 0 {
            self.free_stack().drop_last()
        } else {
            self.free_stack()
        }
    }

    /// The slot count after an allocation.
    pub open spec fn slot_count_after_alloc(&self) -> nat {
        if self.free_stack().len() > 0 {
            self.slot_count()
        } else {
            self.slot_count() + 1
        }
    }

    /// Create a new empty slab store.
    ///
    /// Slots are created on demand up to `DEFAULT_MAX_SLOTS`. The freelist
    /// starts empty because no slots have been allocated-then-freed yet.
    pub fn new() -> (store: SlabStore<T>)
        ensures
            store.wf(),
            store.contents() == Map::<u32, T>::empty(),
            store.free_stack() == Seq::<u32>::empty(),
            store.slot_count() == 0,
            store.capacity() == DEFAULT_MAX_SLOTS,
    {
        let store = SlabStore { slots: Vec::new(), freelist: Vec::new(), max_slots: DEFAULT_MAX_SLOTS };
        assert(store.contents() =~= Map::<u32, T>::empty());
        store
    }

    /// Insert a fully-constructed value into the store.
    ///
    /// Takes the most recently freed slot if there is one, else a fresh
    /// slot; fails with `OutOfMemory` when neither exists. On success the
    /// returned reference is the stored value.
    pub fn insert(&mut self, value: T) -> (r: Result<(ObjectId, &mut T), AllocError>)
        requires
            old(self).wf(),
        ensures
            final(self).wf(),
            final(self).capacity() == old(self).capacity(),
            old(self).can_allocate() <==> r is Ok,
            r matches Ok((id, v)) ==> {
                &&& id.0 == old(self).next_id()
                &&& !old(self).contents().dom().contains(id.0)
                &&& *v == value
                &&& final(self).contents() == old(self).contents().insert(id.0, *final(v))
                &&& final(self).free_stack() == old(self).free_stack_after_alloc()
                &&& final(self).slot_count() == old(self).slot_count_after_alloc()
            },
            r matches Err(e) ==> e == AllocError::OutOfMemory && *final(self) == *old(self),
    {
        if self.freelist.len() > 0 {
            let index = self.freelist.pop().unwrap();
            proof {
                assert(old(self).freelist@.last() == index);
                assert(self.freelist@ == old(self).freelist@.drop_last());
                assert(old(self).freelist@.contains(index));
            }
            let ghost slots_before = self.slots@;
            self.slots.set(index as usize, Some(value));
            proof {
                assert forall|k: int| 0 <= k < self.freelist@.len() implies self.freelist@[k]
                    != index by {
                    let last = old(self).freelist@.len() - 1;
                    assert(old(self).freelist@[k] == self.freelist@[k]);
                    assert(old(self).freelist@[last] == index);
                }
                assert forall|i: int|
                    0 <= i < self.slots@.len() && #[trigger] self.slots@[i] is None implies self.freelist@.contains(
                    i as u32,
                ) by {
                    assert(i != index as int);
                    assert(slots_before[i] is None);
                    assert(old(self).freelist@.contains(i as u32));
                    let k = choose|k: int|
                        0 <= k < old(self).freelist@.len() && old(self).freelist@[k] == i as u32;
                    assert(k != old(self).freelist@.len() - 1);
                    assert(self.freelist@[k] == i as u32);
                }
            }
            let ghost mid = *self;
            let slot_ref = self.slots[index as usize].as_mut().unwrap();
            proof {
                assert(mid.contents() =~= old(self).contents().insert(index, value));
            }
            Ok((ObjectId(index), slot_ref))
        } else if self.slots.len() < self.max_slots as usize {
            let index = self.slots.len() as u32;
            self.slots.push(Some(value));
            let ghost mid = *self;
            proof {
                assert(mid.contents() =~= old(self).contents().insert(index, value));
            }
            let slot_ref = self.slots[index as usize].as_mut().unwrap();
            Ok((ObjectId(index), slot_ref))
        } else {
            Err(AllocError::OutOfMemory)
        }
    }

    /// Look up an object by index.
    ///
    /// Returns `None` if the index is out of bounds or the slot is free.
    pub fn get(&self, id: ObjectId) -> (r: Option<&T>)
        requires
            self.wf(),
        ensures
            r == (if self.contents().dom().contains(id.0) {
                Some(&self.contents()[id.0])
            } else {
                None
            }),
    {
        let index = id.0 as usize;
        if index < self.slots.len() {
            self.slots[index].as_ref()
        } else {
            None
        }
    }

    /// Mutable lookup by index.
    ///
    /// Returns `None` if the index is out of bounds or the slot is free.
    /// Writes through the returned reference become the slot's contents.
    pub fn get_mut(&mut self, id: ObjectId) -> (r: Option<&mut T>)
        requires
            old(self).wf(),
        ensures
            final(self).wf(),
            final(self).free_stack() == old(self).free_stack(),
            final(self).slot_count() == old(self).slot_count(),
            final(self).capacity() == old(self).capacity(),
            old(self).contents().dom().contains(id.0) <==> r is Some,
            r matches Some(v) ==> *v == old(self).contents()[id.0] && final(self).contents()
                == old(self).contents().insert(id.0, *final(v)),
            r is None ==> final(self).contents() == old(self).contents(),
    {
        let index = id.0 as usize;
        if index < self.slots.len() {
            self.slots[index].as_mut()
        } else {
            None
        }
    }

    /// Return a slot to the freelist.
    ///
    /// Out-of-bounds indices and already-free slots are ignored (double-free
    /// protection): pushing a free slot a second time would make two
    /// allocations return the same slot.
    pub fn free(&mut self, id: ObjectId)
        requires
            old(self).wf(),
        ensures
            final(self).wf(),
            final(self).capacity() == old(self).capacity(),
            final(self).slot_count() == old(self).slot_count(),
            if old(self).contents().dom().contains(id.0) {
                &&& final(self).contents() == old(self).contents().remove(id.0)
                &&& final(self).free_stack() == old(self).free_stack().push(id.0)
            } else {
                *final(self) == *old(self)
            },
    {
        let index = id.0 as usize;

        if index < self.slots.len() && self.slots[index].is_some() {
            proof {
                assert(!self.freelist@.contains(id.0));
            }
            self.slots.set(index, None);
            self.freelist.push(id.0);
            proof {
                assert(self.contents() =~= old(self).contents().remove(id.0));
                assert forall|i: int|
                    0 <= i < self.slots@.len() && #[trigger] self.slots@[i] is None implies self.freelist@.contains(
                    i as u32,
                ) by {
                    if i != index as int {
                        assert(old(self).slots@[i] is None);
                        let k = choose|k: int|
                            0 <= k < old(self).freelist@.len() && old(self).freelist@[k]
                                == i as u32;
                        assert(self.freelist@[k] == i as u32);
                    } else {
                        assert(self.freelist@[self.freelist@.len() - 1] == id.0);
                    }
                }
            }
        }
    }

    /// Call `f` with the id of and a mutable reference to each occupied
    /// slot, in slot order. Each occupied slot ends up holding what `f` left
    /// behind in it; free slots, the freelist and the slot count are
    /// untouched.
    pub fn for_each_mut<F: FnMut(ObjectId, &mut T)>(&mut self, mut f: F)
        requires
            old(self).wf(),
            forall|id: ObjectId, v: &mut T| f.requires((id, v)),
        ensures
            final(self).wf(),
            final(self).contents().dom() == old(self).contents().dom(),
            final(self).free_stack() == old(self).free_stack(),
            final(self).slot_count() == old(self).slot_count(),
            final(self).capacity() == old(self).capacity(),
            forall|id: u32|
                #[trigger] old(self).contents().dom().contains(id) ==> exists|r: &mut T|
                    *r == old(self).contents()[id] && *final(r) == final(self).contents()[id]
                        && #[trigger] call_ensures(f, (ObjectId(id), r), ()),
    {
        let ghost f0 = f;
        let mut index: usize = 0;
        while index < self.slots.len()
            invariant
                self.wf(),
                f == f0,
                index <= self.slots@.len(),
                self.contents().dom() == old(self).contents().dom(),
                self.free_stack() == old(self).free_stack(),
                self.slot_count() == old(self).slot_count(),
                self.capacity() == old(self).capacity(),
                forall|id: ObjectId, v: &mut T| f.requires((id, v)),
                forall|id: u32|
                    #[trigger] old(self).contents().dom().contains(id) && (id as int) < index
                        ==> exists|r: &mut T|
                        *r == old(self).contents()[id] && *final(r) == self.contents()[id]
                            && #[trigger] call_ensures(f0, (ObjectId(id), r), ()),
                forall|id: u32|
                    #[trigger] old(self).contents().dom().contains(id) && (id as int) >= index
                        ==> self.contents()[id] == old(self).contents()[id],
            decreases self.slots@.len() - index,
        {
            match self.slots[index].as_mut() {
                Some(value) => {
                    f(ObjectId(index as u32), value);
                },
                None => {},
            }
            index += 1;
        }
    }
}

/// An allocation succeeds exactly when some slot below the capacity is
/// unoccupied.
pub proof fn law_allocation_succeeds_iff_unoccupied_slot<T>(s: SlabStore<T>)
    requires
        s.wf(),
    ensures
        s.can_allocate() <==> exists|id: u32|
            (id as nat) < s.capacity() && !s.contents().dom().contains(id),
{
    if s.can_allocate() {
        if s.free_stack().len() > 0 {
            let id = s.free_stack().last();
            assert(s.freelist@[s.freelist@.len() - 1] == id);
            assert(!s.contents().dom().contains(id));
        } else {
            let id = s.slot_count() as u32;
            assert(!s.contents().dom().contains(id));
        }
    }
    if exists|id: u32| (id as nat) < s.capacity() && !s.contents().dom().contains(id) {
        let id = choose|id: u32| (id as nat) < s.capacity() && !s.contents().dom().contains(id);
        if (id as int) < s.slots@.len() {
            assert(s.slots@[id as int] is None);
            assert(s.freelist@.contains(id));
        }
    }
}

/// The most recently freed slot is the one the next allocation returns
/// (LIFO reuse).
pub proof fn law_free_then_allocate_reuses<T>(before: SlabStore<T>, after: SlabStore<T>, id: u32)
    requires
        before.contents().dom().contains(id),
        after.free_stack() == before.free_stack().push(id),
    ensures
        after.can_allocate(),
        after.next_id() == id,
{
}

impl<T: Default> SlabStore<T> {
    /// Allocate a slot holding `T::default()`.
    ///
    /// Same slot choice and failure as [`SlabStore::insert`].
    pub fn allocate(&mut self) -> (r: Result<(ObjectId, &mut T), AllocError>)
        requires
            old(self).wf(),
        ensures
            final(self).wf(),
            final(self).capacity() == old(self).capacity(),
            old(self).can_allocate() <==> r is Ok,
            r matches Ok((id, v)) ==> {
                &&& id.0 == old(self).next_id()
                &&& !old(self).contents().dom().contains(id.0)
                &&& final(self).contents() == old(self).contents().insert(id.0, *final(v))
                &&& final(self).free_stack() == old(self).free_stack_after_alloc()
                &&& final(self).slot_count() == old(self).slot_count_after_alloc()
            },
            r matches Err(e) ==> e == AllocError::OutOfMemory && *final(self) == *old(self),
    {
        self.insert(T::default())
    }
}

impl<T> Default for SlabStore<T> {
    fn default() -> (store: SlabStore<T>)
        ensures
            store.wf(),
            store.contents() == Map::<u32, T>::empty(),
            store.free_stack() == Seq::<u32>::empty(),
            store.slot_count() == 0,
            store.capacity() == DEFAULT_MAX_SLOTS,
    {
        SlabStore::new()
    }
}

} // verus!
