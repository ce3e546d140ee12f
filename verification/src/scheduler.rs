//! Scheduler and placement traits.
//!
//! Per-core schedulers may run different algorithms; the scheduler also
//! approves the IPC fast path. Placement is scored by profile matching.
//! There are two traits — `Scheduler` (per-core) and `Placement`
//! (cross-core) — kept apart because the per-core hot path must not read
//! cross-core state, which placement does.
//!
//! Observers are named to a scheduler by the address of their record.

use crate::observer::Observer;
use vstd::prelude::*;

verus! {

/// Core identifier. Not exposed to Observers.
#[derive(Clone, Copy, Debug, PartialEq, Eq, Structural)]
pub struct CoreId(pub u16);

/// Snapshot of per-core state for placement decisions.
///
/// Populated once before scoring to avoid cache-line bouncing.
pub struct CoreSnapshot {
    pub core_id: CoreId,
    pub idle: bool,
    pub queue_depth: u32,
    pub capacity_factor: u32,
}

/// Placement decision.
pub enum PlacementDecision {
    /// Schedule on the current core (hot path, no IPI).
    Local,
    /// Schedule on a remote core (cold path, mailbox + IPI).
    Remote(CoreId),
}

/// Per-core scheduler.
///
/// Each core owns one implementation. Algorithm-agnostic: cores may run
/// different algorithms (throughput on big cores, fixed priority on
/// little ones, deadline on RT-dedicated ones).
///
/// Lock discipline:
/// - `enqueue`/`dequeue`: called while holding the Observer arena lock.
/// - `pick_next`, `should_switch_to`, `on_preempt`: called without locks.
pub trait Scheduler {
    /// Observer joins the run queue.
    fn enqueue(&mut self, observer: usize);

    /// Observer leaves the run queue.
    fn dequeue(&mut self, observer: usize);

    /// Select the next Observer to resume. `None` means wait for an
    /// interrupt.
    fn pick_next(&self) -> Option<usize>;

    /// IPC fast-path predicate. Read-only and cheap.
    fn should_switch_to(&self, receiver: usize) -> bool;

    /// Timer tick accounting.
    fn on_preempt(&mut self);
}

/// Cross-core placement.
///
/// One instance per system, not per core. Scored placement compares idle
/// status, queue depth and profile compatibility across all candidate
/// cores, from snapshots populated once before scoring.
pub trait Placement {
    fn place(&self, observer: &Observer, snapshots: &[CoreSnapshot]) -> PlacementDecision;
}

} // verus!
