//! Pulsar: capability-held timer object with kernel-managed delivery.
//!
//! A Pulsar is created from a Space and delivers to a Field. It is armed
//! at creation; cancel is destroy and modify is destroy + create. The
//! kernel manages re-arm, drift compensation and overflow, and the period
//! is an input to deadline admission. Its fire message carries the badge,
//! the fire time and the overrun count.

use crate::arena::ObjectId;
use crate::capability::Badge;
use vstd::prelude::*;

verus! {

/// A timer that the kernel programs on behalf of an Observer and delivers
/// as a Field message when it fires.
///
/// Armed on creation: there is no separate arm, configure or modify call.
/// A one-shot loop is the manual-control escape hatch for adaptive timing.
pub struct Pulsar {
    /// Delivery target Field; the kernel enqueues a message here on fire.
    pub delivery_field: ObjectId,

    /// Badge injected into the fire message.
    pub badge: Badge,

    /// Duration in relative nanoseconds. The kernel converts it to
    /// absolute ticks using the counter frequency at creation time.
    pub duration_ns: u64,

    /// Period in nanoseconds. 0 = one-shot; > 0 = repeating with
    /// kernel-managed re-arm and drift compensation.
    pub period_ns: u64,

    /// Next absolute deadline in counter ticks (kernel-internal). Updated
    /// as `next = scheduled + period` for repeating Pulsars.
    pub next_deadline_ticks: u64,

    /// Accumulated overrun count, incremented when the delivery Field is
    /// full and re-arm is deferred.
    pub overrun_count: u32,

    /// Outstanding capability references.
    pub refcount: u32,

    /// Revocation generation counter.
    pub generation: u64,
}

} // verus!
