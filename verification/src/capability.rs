//! Capabilities: badges and the entries of an Observer's capability table.
//!
//! An entry is a stand-in record of what a table slot holds: the object it
//! designates, the rights and badge it carries, the tag that tells reuses
//! of the slot apart, and a generation word that, in an empty slot, links
//! the slot into the table's free list.

use crate::arena::ObjectId;
use vstd::prelude::*;

verus! {

/// Badge value carried by a capability and injected into delivered
/// messages so the receiver can tell senders apart.
#[derive(Clone, Copy, Debug, PartialEq, Eq, Structural)]
pub struct Badge(pub u64);

/// Kind of kernel object a capability designates.
#[derive(Clone, Copy, Debug, PartialEq, Eq, Structural)]
pub enum ObjectType {
    Field,
    Observer,
    Pulsar,
    Space,
    Time,
}

/// Rights bits carried by a capability.
#[derive(Clone, Copy, Debug, PartialEq, Eq, Structural)]
pub struct Rights(pub u32);

/// Tag of a capability slot, bumped each time the slot is freed so that a
/// handle to an earlier occupant no longer matches.
#[derive(Clone, Copy, Debug, PartialEq, Eq, Structural)]
pub struct SlotTag(pub u32);

/// First capability slot available to user capabilities; the slots below
/// it are reserved.
pub const SLOT_USER_START: u32 = 3;

/// One capability table slot.
#[derive(Clone, Copy, Debug)]
pub struct Entry {
    /// Designated object, or `None` for an empty slot.
    pub object: Option<(ObjectType, ObjectId)>,
    pub rights: Rights,
    pub badge: Badge,
    pub slot_tag: SlotTag,
    /// The capability is consumed by its first use.
    pub send_once: bool,
    /// Generation of the object when the capability was made; in an empty
    /// slot, the index of the next free slot.
    pub stored_generation: u64,
}

impl Entry {
    /// An empty slot with the given tag: no object, no rights, every other
    /// word zero.
    pub fn empty(slot_tag: SlotTag) -> (e: Entry)
        ensures
            e == (Entry {
                object: None,
                rights: Rights(0),
                badge: Badge(0),
                slot_tag,
                send_once: false,
                stored_generation: 0,
            }),
    {
        Entry {
            object: None,
            rights: Rights(0),
            badge: Badge(0),
            slot_tag,
            send_once: false,
            stored_generation: 0,
        }
    }

    /// The slot holds a capability.
    pub fn is_occupied(&self) -> (b: bool)
        ensures
            b == self.object is Some,
    {
        self.object.is_some()
    }
}

/// An Observer's capability table as the table operations see it: the
/// address of its entry array, the array's length, the head of the free
/// list through the empty slots, and the number of occupied slots.
pub struct Table {
    pub entries: usize,
    pub capacity: u32,
    pub free_head: Option<u32>,
    pub count: u32,
}

} // verus!
