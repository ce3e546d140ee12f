//! Capability table storage: bounds-checked access to the slots of an
//! Observer's capability table, and its allocation with the free list
//! threaded through the empty slots.

use crate::capability::{Badge, Entry, Rights, SLOT_USER_START, SlotTag};
use vstd::prelude::*;

verus! {

/// The entry at `index` of a table of `capacity` slots, or `None` past the
/// end.
pub fn entry_ref(entries: &Vec<Entry>, capacity: u32, index: u32) -> (r: Option<&Entry>)
    requires
        entries.len() == capacity,
    ensures
        r == (if index < capacity {
            Some(&entries@[index as int])
        } else {
            None
        }),
{
    if index >= capacity {
        return None;
    }
    Some(&entries[index as usize])
}

/// Overwrite the entry at `index`; `false`, with the table unchanged, past
/// the end.
pub fn write_entry(entries: &mut Vec<Entry>, capacity: u32, index: u32, new_entry: Entry) -> (ok: bool)
    requires
        old(entries).len() == capacity,
    ensures
        ok == (index < capacity),
        final(entries)@ == (if ok {
            old(entries)@.update(index as int, new_entry)
        } else {
            old(entries)@
        }),
{
    if index >= capacity {
        return false;
    }
    entries.set(index as usize, new_entry);
    true
}

/// Free-list link of slot `i` in a table of `capacity` slots: the next
/// slot, or `u64::MAX` for the last one.
pub open spec fn next_free(i: int, capacity: int) -> u64 {
    if i + 1 < capacity {
        (i + 1) as u64
    } else {
        u64::MAX
    }
}

/// Link slots `start` to `capacity - 1` into a free list: each one's
/// `stored_generation` names the next free slot, the last holds the end
/// sentinel `u64::MAX`. Other fields, and the slots before `start`, are
/// left as they are.
pub fn init_freelist(entries: &mut Vec<Entry>, capacity: u32, start: u32)
    requires
        old(entries).len() == capacity,
    ensures
        final(entries).len() == capacity,
        forall|i: int|
            0 <= i < capacity ==> #[trigger] final(entries)@[i] == (if start <= i {
                Entry { stored_generation: next_free(i, capacity as int), ..old(entries)@[i] }
            } else {
                old(entries)@[i]
            }),
{
    let ghost e0 = entries@;
    let mut i: u32 = start;
    while i < capacity
        invariant
            entries.len() == capacity,
            start <= i,
            forall|j: int|
                0 <= j < capacity ==> #[trigger] entries@[j] == (if start <= j < i {
                    Entry { stored_generation: next_free(j, capacity as int), ..e0[j] }
                } else {
                    e0[j]
                }),
        decreases capacity - i,
    {
        let link: u64 = if i + 1 < capacity {
            (i + 1) as u64
        } else {
            u64::MAX
        };
        let e = entries[i as usize];
        proof {
            assert(e == e0[i as int]);
            assert(link == next_free(i as int, capacity as int));
        }
        let ghost before = entries@;
        entries.set(i as usize, Entry { stored_generation: link, ..e });
        proof {
            assert forall|j: int| 0 <= j < capacity implies #[trigger] entries@[j] == (if start
                <= j < i + 1 {
                Entry { stored_generation: next_free(j, capacity as int), ..e0[j] }
            } else {
                e0[j]
            }) by {
                if j != i {
                    assert(entries@[j] == before[j]);
                }
            }
        }
        i = i + 1;
    }
}

/// Capability table storage for a new Observer: `capacity` empty slots
/// tagged 0, with the user slots linked into the free list; `None` for a
/// zero capacity.
pub fn allocate_cap_table(capacity: u32) -> (table: Option<Vec<Entry>>)
    ensures
        table is None <==> capacity == 0,
        table matches Some(t) ==> {
            &&& t.len() == capacity
            &&& forall|i: int|
                0 <= i < capacity ==> #[trigger] t@[i] == (Entry {
                    object: None,
                    rights: Rights(0),
                    badge: Badge(0),
                    slot_tag: SlotTag(0),
                    send_once: false,
                    stored_generation: if SLOT_USER_START <= i {
                        next_free(i, capacity as int)
                    } else {
                        0
                    },
                })
        },
{
    if capacity == 0 {
        return None;
    }
    let mut entries: Vec<Entry> = Vec::new();
    let mut i: u32 = 0;
    while i < capacity
        invariant
            i <= capacity,
            entries.len() == i,
            forall|j: int|
                0 <= j < i ==> #[trigger] entries@[j] == (Entry {
                    object: None,
                    rights: Rights(0),
                    badge: Badge(0),
                    slot_tag: SlotTag(0),
                    send_once: false,
                    stored_generation: 0,
                }),
        decreases capacity - i,
    {
        entries.push(Entry::empty(SlotTag(0)));
        i = i + 1;
    }
    init_freelist(&mut entries, capacity, SLOT_USER_START);
    Some(entries)
}

} // verus!
