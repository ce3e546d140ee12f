//! Field: the message-queue kernel object, as its arena holds it.
//!
//! A Field is a bounded circular queue of messages with a list of waiting
//! Observers, a list of pending fault and interrupt senders, and an
//! optional badge-range routing table to the Fields split off from it.
//! Queue storage and list links live in the Field's structural backing and
//! are held here as the addresses they designate.

use crate::frame::fields::RoutingTable;
use core::sync::atomic::AtomicU64;
use vstd::prelude::*;

verus! {

/// A Field record.
pub struct Field {
    /// Address of the message queue array.
    pub queue: usize,
    /// Number of message slots in the queue.
    pub queue_capacity: u32,
    /// Number of messages queued.
    pub queue_length: u32,
    /// Index of the oldest queued message.
    pub queue_head: u32,
    /// First Observer waiting to receive (address of its wait entry).
    pub waiters_head: Option<usize>,
    /// Last Observer waiting to receive.
    pub waiters_tail: Option<usize>,
    /// Badge-range routes to split-off Fields.
    pub routing_table: Option<RoutingTable>,
    /// First pending kernel-originated sender (address of its wait entry).
    pub pending_head: Option<usize>,
    /// Whether badges are tracked for routing.
    pub badge_tracking: bool,
    /// First routing entry elsewhere that points at this Field.
    pub back_pointer_head: Option<usize>,
    /// Outstanding capability references.
    pub refcount: u32,
    /// Revocation generation counter.
    pub generation: AtomicU64,
    /// VA base of the Space consumed at creation.
    pub backing_va_base: usize,
    /// Size in bytes of the Space consumed at creation.
    pub backing_size: usize,
}

impl Default for Field {
    /// An empty Field record: no queue, no waiters, no routes, every
    /// counter zero, as a freshly zeroed arena slot holds it.
    fn default() -> (field: Field)
        ensures
            field.queue == 0,
            field.queue_capacity == 0,
            field.queue_length == 0,
            field.queue_head == 0,
            field.waiters_head is None,
            field.waiters_tail is None,
            field.routing_table is None,
            field.pending_head is None,
            !field.badge_tracking,
            field.back_pointer_head is None,
            field.refcount == 0,
            field.backing_va_base == 0,
            field.backing_size == 0,
    {
        Field {
            queue: 0,
            queue_capacity: 0,
            queue_length: 0,
            queue_head: 0,
            waiters_head: None,
            waiters_tail: None,
            routing_table: None,
            pending_head: None,
            badge_tracking: false,
            back_pointer_head: None,
            refcount: 0,
            generation: AtomicU64::new(0),
            backing_va_base: 0,
            backing_size: 0,
        }
    }
}

} // verus!
