//! Observer: schedulable execution unit.
//!
//! An Observer is a single execution unit — one register state, one PC —
//! held through capabilities. It carries a three-value scheduling profile
//! (responsiveness, throughput, precision) with a budget of 128: R and T
//! are stored and P = 128 - R - T is derived, so an invalid three-way sum
//! cannot be represented. The lifecycle is a four-state machine (Inert,
//! Runnable, Blocked, Faulted) with an orthogonal suspension overlay.
//!
//! Pointers into structural backing (register state, capability array,
//! wait-list links) are held as the addresses they designate.

use crate::arena::ObjectId;
use crate::capability::Table;
use core::sync::atomic::AtomicU64;
use vstd::prelude::*;

verus! {

// ── Scheduling constants ───────────────────────────────────────────

/// Scheduling budget. R + T <= SCHEDULING_BUDGET; precision is derived as
/// P = SCHEDULING_BUDGET - R - T.
pub const SCHEDULING_BUDGET: u8 = 128;

/// Default responsiveness: the closest equal distribution of 128.
pub const DEFAULT_RESPONSIVENESS: u8 = 43;

/// Default throughput.
pub const DEFAULT_THROUGHPUT: u8 = 43;

// ── Register state handle ──────────────────────────────────────────

/// Opaque handle to saved register state in structural backing: the
/// address of the Observer's RegisterState.
///
/// The Observer carries this without knowing the register layout; the
/// architecture's context-switch code resolves it.
#[derive(Clone, Copy)]
pub struct RegisterStateHandle(usize);

impl RegisterStateHandle {
    /// The address the handle designates.
    pub closed spec fn address(&self) -> usize {
        self.0
    }

    /// Wrap the address of a RegisterState.
    pub fn new(ptr: usize) -> (h: RegisterStateHandle)
        ensures
            h.address() == ptr,
    {
        RegisterStateHandle(ptr)
    }

    /// The address of the RegisterState.
    pub fn as_ptr(&self) -> (ptr: usize)
        ensures
            ptr == self.address(),
    {
        self.0
    }
}

// ── Scheduling state ───────────────────────────────────────────────

/// Primary Observer lifecycle state.
///
/// Transitions:
/// - Inert → Runnable: resume (first start)
/// - Runnable → Blocked: receive() with empty queue
/// - Blocked → Runnable: message arrives on waited Field
/// - Runnable → Faulted: hardware fault (page fault, invalid cap, etc.)
/// - Faulted → Runnable: resume (after the handler resolves)
///
/// Suspension is orthogonal — tracked by [`Observer::suspended`].
pub enum PrimaryState {
    Inert,
    Runnable,
    Blocked,
    Faulted,
}

// ── Wait-state linkage ─────────────────────────────────────────────

/// Node linking an Observer into a Field's waiters or pending list.
///
/// `observer` and `field` are the addresses of the waiting Observer and of
/// the Field it waits on; `prev` and `next` name the neighbouring entries
/// in the Field's list by their index in the table of wait entries that the
/// list is threaded through.
pub struct WaitEntry {
    pub observer: usize,
    pub field: usize,
    pub prev: Option<usize>,
    pub next: Option<usize>,
}

/// Wait-state for a blocked or fault-pending Observer.
///
/// Only one variant is active at a time. [`WaitState::NotWaiting`] when the
/// Observer is not waiting on any Field.
pub enum WaitState {
    NotWaiting,
    Single(WaitEntry),
    Multi { head: usize },
}

// ── Saved syscall context ──────────────────────────────────────────

/// Saved syscall context for transparent retry after capability-table
/// growth.
pub enum SavedSyscallContext {
    /// No pending replay.
    NoReplay,
}

// ── Observer metadata struct ───────────────────────────────────────

/// The condition under which compute (Time) executes instructions within
/// specific memory (Space).
///
/// Physically two regions: this metadata struct in the root Space, and
/// structural backing in the consumed Space (register save area, cap table
/// pages, page table root), referenced by address.
pub struct Observer {
    /// Arena slot identifier.
    pub object_id: ObjectId,

    /// Handle to the saved register context in structural backing.
    pub register_state: RegisterStateHandle,

    /// Per-Observer hardware ASID, encoded in TTBR0 bits\[63:48\] and used
    /// as the TLB invalidation key on Space unmap.
    pub asid: u16,

    /// ASID generation epoch; a stale generation means the hardware ASID
    /// must be re-allocated before TTBR0 is written.
    pub asid_generation: u64,

    /// Translation base loaded on context switch (`make_ttbr0(asid,
    /// l1_root_pa)`).
    pub page_table_root: u64,

    /// Address of the flat capability array in structural backing.
    pub cap_table: usize,

    /// Number of entries in the cap table array, for bounds-checking
    /// handle resolution on the hot path.
    pub cap_table_capacity: u32,

    /// Head of the freelist through empty cap table entries. None when
    /// all user slots are occupied.
    pub cap_table_free_head: Option<u32>,

    /// Number of occupied entries in the cap table.
    pub cap_table_count: u32,

    /// Primary lifecycle state.
    pub state: PrimaryState,

    /// External suspension overlay. Co-occurs with Blocked or Faulted.
    /// Resume clears this; the underlying state remains.
    pub suspended: bool,

    /// Cached sum of held Time compute units, read by the per-core
    /// scheduler.
    pub compute_aggregate: u32,

    /// Scheduling profile: R and T stored, P = 128 - R - T derived.
    pub responsiveness: u8,
    pub throughput: u8,

    /// Whether the Observer may read the virtual counter directly.
    pub clock_access: bool,

    /// Wait-state linkage for blocked/pending states.
    pub wait_state: WaitState,

    /// Saved syscall context for replay after cap table growth.
    pub saved_syscall: SavedSyscallContext,

    /// VA base of the Space consumed at creation (for destroy).
    pub backing_va_base: usize,

    /// Size in bytes of the Space consumed at creation.
    pub backing_size: usize,

    /// Outstanding capability references to this Observer.
    pub refcount: u32,

    /// Revocation generation counter.
    pub generation: AtomicU64,
}

// ── Error types ────────────────────────────────────────────────────

/// Errors from Observer operations.
#[derive(Clone, Copy, Debug, PartialEq, Eq, Structural)]
pub enum ObserverError {
    /// The requested transition is not valid from the current state.
    InvalidTransition,
    /// R + T > SCHEDULING_BUDGET.
    InvalidProfile,
}

// ── Observer methods ───────────────────────────────────────────────

impl PrimaryState {
    /// Whether this state means the Observer is not currently scheduled.
    pub fn is_stopped(&self) -> (b: bool)
        ensures
            b == (*self is Inert || *self is Faulted),
    {
        matches!(self, PrimaryState::Inert | PrimaryState::Faulted)
    }
}

/// A profile (R, T) fits the scheduling budget.
pub open spec fn profile_fits(responsiveness: u8, throughput: u8) -> bool {
    responsiveness + throughput <= 128
}

/// The Observer after a successful resume: Runnable, suspension cleared.
pub open spec fn resumed(o: Observer) -> Observer {
    Observer { state: PrimaryState::Runnable, suspended: false, ..o }
}

/// The Observer with the suspension overlay set.
pub open spec fn suspended(o: Observer) -> Observer {
    Observer { suspended: true, ..o }
}

/// The Observer after a successful block on `wait_state`.
pub open spec fn blocked(o: Observer, wait_state: WaitState) -> Observer {
    Observer { state: PrimaryState::Blocked, wait_state, ..o }
}

/// The Observer after a successful unblock: Runnable, no longer waiting;
/// the suspension overlay is kept.
pub open spec fn unblocked(o: Observer) -> Observer {
    Observer { state: PrimaryState::Runnable, wait_state: WaitState::NotWaiting, ..o }
}

/// The Observer after a successful fault.
pub open spec fn faulted(o: Observer) -> Observer {
    Observer { state: PrimaryState::Faulted, ..o }
}

impl Observer {
    /// Validate a scheduling profile before applying it: R + T must not
    /// exceed SCHEDULING_BUDGET (128).
    pub fn validate_profile(responsiveness: u8, throughput: u8) -> (r: Result<(), ObserverError>)
        ensures
            r == (if profile_fits(responsiveness, throughput) {
                Ok::<(), ObserverError>(())
            } else {
                Err(ObserverError::InvalidProfile)
            }),
    {
        if responsiveness as u16 + throughput as u16 > SCHEDULING_BUDGET as u16 {
            return Err(ObserverError::InvalidProfile);
        }

        Ok(())
    }

    /// Derived precision value: P = SCHEDULING_BUDGET - R - T.
    pub fn precision(&self) -> (p: u8)
        requires
            profile_fits(self.responsiveness, self.throughput),
        ensures
            p == 128 - self.responsiveness - self.throughput,
    {
        SCHEDULING_BUDGET - self.responsiveness - self.throughput
    }

    /// Transition from a stopped state to Runnable.
    ///
    /// Valid from Inert (first start) and Faulted (after the handler
    /// resolves); also clears the suspension flag. From any other state it
    /// fails with `InvalidTransition` and changes nothing.
    pub fn resume(&mut self) -> (r: Result<(), ObserverError>)
        ensures
            old(self).state.is_stopped_state() ==> r is Ok && *final(self) == resumed(*old(self)),
            !old(self).state.is_stopped_state() ==> r == Err::<(), ObserverError>(
                ObserverError::InvalidTransition,
            ) && *final(self) == *old(self),
    {
        match self.state {
            PrimaryState::Inert | PrimaryState::Faulted => {
                self.state = PrimaryState::Runnable;
                self.suspended = false;

                Ok(())
            },
            _ => Err(ObserverError::InvalidTransition),
        }
    }

    /// Set the external suspension overlay.
    ///
    /// Co-occurs with Blocked or Faulted; the primary state is unchanged.
    pub fn suspend(&mut self)
        ensures
            *final(self) == suspended(*old(self)),
    {
        self.suspended = true;
    }

    /// Transition to Blocked when waiting on a Field.
    ///
    /// Valid from Runnable only, recording the wait-state linkage. From any
    /// other state it fails with `InvalidTransition` and changes nothing.
    pub fn block(&mut self, wait_state: WaitState) -> (r: Result<(), ObserverError>)
        ensures
            old(self).state is Runnable ==> r is Ok && *final(self) == blocked(*old(self), wait_state),
            !(old(self).state is Runnable) ==> r == Err::<(), ObserverError>(
                ObserverError::InvalidTransition,
            ) && *final(self) == *old(self),
    {
        match self.state {
            PrimaryState::Runnable => {
                self.state = PrimaryState::Blocked;
                self.wait_state = wait_state;

                Ok(())
            },
            _ => Err(ObserverError::InvalidTransition),
        }
    }

    /// Transition from Blocked to Runnable when a message arrives.
    ///
    /// The blocking condition is resolved but the suspension overlay stays.
    /// Returns `Ok(true)` if the Observer should be enqueued (not
    /// suspended), `Ok(false)` if it is Runnable but remains suspended.
    /// From any state but Blocked it fails with `InvalidTransition` and
    /// changes nothing.
    pub fn unblock(&mut self) -> (r: Result<bool, ObserverError>)
        ensures
            old(self).state is Blocked ==> r == Ok::<bool, ObserverError>(!old(self).suspended)
                && *final(self) == unblocked(*old(self)),
            !(old(self).state is Blocked) ==> r == Err::<bool, ObserverError>(
                ObserverError::InvalidTransition,
            ) && *final(self) == *old(self),
    {
        match self.state {
            PrimaryState::Blocked => {
                self.state = PrimaryState::Runnable;
                self.wait_state = WaitState::NotWaiting;

                Ok(!self.suspended)
            },
            _ => Err(ObserverError::InvalidTransition),
        }
    }

    /// Transition to Faulted.
    ///
    /// Valid from Runnable only; from any other state it fails with
    /// `InvalidTransition` and changes nothing.
    pub fn fault(&mut self) -> (r: Result<(), ObserverError>)
        ensures
            old(self).state is Runnable ==> r is Ok && *final(self) == faulted(*old(self)),
            !(old(self).state is Runnable) ==> r == Err::<(), ObserverError>(
                ObserverError::InvalidTransition,
            ) && *final(self) == *old(self),
    {
        match self.state {
            PrimaryState::Runnable => {
                self.state = PrimaryState::Faulted;

                Ok(())
            },
            _ => Err(ObserverError::InvalidTransition),
        }
    }

    /// Update the scheduling profile.
    ///
    /// Validates R + T <= 128 before applying; on an invalid profile it
    /// fails with `InvalidProfile` and changes nothing.
    pub fn set_scheduling(&mut self, responsiveness: u8, throughput: u8) -> (r: Result<
        (),
        ObserverError,
    >)
        ensures
            profile_fits(responsiveness, throughput) ==> r is Ok && *final(self) == (Observer {
                responsiveness,
                throughput,
                ..*old(self)
            }),
            !profile_fits(responsiveness, throughput) ==> r == Err::<(), ObserverError>(
                ObserverError::InvalidProfile,
            ) && *final(self) == *old(self),
    {
        match Self::validate_profile(responsiveness, throughput) {
            Ok(()) => {},
            Err(e) => return Err(e),
        }

        self.responsiveness = responsiveness;
        self.throughput = throughput;

        Ok(())
    }

    /// Add compute units to the cached aggregate (a Time cap was
    /// installed). The sum must fit in a `u32`.
    pub fn add_compute(&mut self, units: u32)
        requires
            old(self).compute_aggregate + units <= u32::MAX,
        ensures
            *final(self) == (Observer {
                compute_aggregate: (old(self).compute_aggregate + units) as u32,
                ..*old(self)
            }),
    {
        self.compute_aggregate += units;
    }

    /// Remove compute units from the cached aggregate (a Time cap was
    /// removed), saturating at zero.
    pub fn remove_compute(&mut self, units: u32)
        ensures
            *final(self) == (Observer {
                compute_aggregate: (if old(self).compute_aggregate >= units {
                    old(self).compute_aggregate - units
                } else {
                    0
                }) as u32,
                ..*old(self)
            }),
    {
        self.compute_aggregate = self.compute_aggregate.saturating_sub(units);
    }

    /// Atomically increment the generation counter, revoking all
    /// capabilities that stored the previous generation value.
    pub fn revoke(&self) {
        self.generation.fetch_add(1, core::sync::atomic::Ordering::Release);
    }
}

impl PrimaryState {
    /// Spec form of [`PrimaryState::is_stopped`].
    pub open spec fn is_stopped_state(&self) -> bool {
        *self is Inert || *self is Faulted
    }
}

// ── Laws ───────────────────────────────────────────────────────────

impl Observer {
    /// The Observer's capability table fields as a [`Table`].
    pub open spec fn cap_table_view(self) -> Table {
        Table {
            entries: self.cap_table,
            capacity: self.cap_table_capacity,
            free_head: self.cap_table_free_head,
            count: self.cap_table_count,
        }
    }

    /// Run `f` on a table built from this Observer's capability-table
    /// fields, write back the fields a table operation changes (the
    /// free-list head and the occupied count) from the table `f` hands
    /// back, and return `f`'s result. Every other field is left as it was.
    pub fn with_cap_table<R, F: FnOnce(Table) -> (Table, R)>(&mut self, f: F) -> (r: R)
        requires
            call_requires(f, (old(self).cap_table_view(),)),
        ensures
            exists|t: Table|
                #[trigger] call_ensures(f, (old(self).cap_table_view(),), (t, r))
                    && final(self).cap_table_free_head == t.free_head
                    && final(self).cap_table_count == t.count,
            *final(self) == (Observer {
                cap_table_free_head: final(self).cap_table_free_head,
                cap_table_count: final(self).cap_table_count,
                ..*old(self)
            }),
    {
        let table = Table {
            entries: self.cap_table,
            capacity: self.cap_table_capacity,
            free_head: self.cap_table_free_head,
            count: self.cap_table_count,
        };
        let (table, result) = f(table);
        self.cap_table_free_head = table.free_head;
        self.cap_table_count = table.count;
        result
    }
}

/// Any profile accepted by the budget leaves a precision in `0..=128`, and
/// the three values always sum to the budget.
pub proof fn law_profile_sums_to_budget(responsiveness: u8, throughput: u8)
    requires
        profile_fits(responsiveness, throughput),
    ensures
        0 <= 128 - responsiveness - throughput <= 128,
        responsiveness + throughput + (128 - responsiveness - throughput) == 128,
{
}

/// Blocking a Runnable Observer and then unblocking it leaves it Runnable
/// with no wait-state, everything else as it was; the unblock asks for an
/// enqueue exactly when the Observer is not suspended.
pub proof fn law_block_then_unblock_restores(o: Observer, wait_state: WaitState)
    requires
        o.state is Runnable,
    ensures
        blocked(o, wait_state).state is Blocked,
        unblocked(blocked(o, wait_state)) == (Observer { wait_state: WaitState::NotWaiting, ..o }),
        unblocked(blocked(o, wait_state)).suspended == o.suspended,
{
}

/// A fault followed by a resume brings a Runnable Observer back to
/// Runnable with its suspension cleared and nothing else changed.
pub proof fn law_fault_then_resume_restores(o: Observer)
    requires
        o.state is Runnable,
    ensures
        faulted(o).state.is_stopped_state(),
        resumed(faulted(o)) == (Observer { suspended: false, ..o }),
{
}

/// No lifecycle transition touches the scheduling profile, so a profile
/// within the budget stays within it.
pub proof fn law_transitions_keep_profile(o: Observer, wait_state: WaitState)
    requires
        profile_fits(o.responsiveness, o.throughput),
    ensures
        profile_fits(resumed(o).responsiveness, resumed(o).throughput),
        profile_fits(suspended(o).responsiveness, suspended(o).throughput),
        profile_fits(blocked(o, wait_state).responsiveness, blocked(o, wait_state).throughput),
        profile_fits(unblocked(o).responsiveness, unblocked(o).throughput),
        profile_fits(faulted(o).responsiveness, faulted(o).throughput),
{
}

/// Resuming a stopped (Inert or Faulted) Observer starts it: it becomes
/// Runnable and is no longer suspended, whatever its suspension flag was,
/// and no other field changes. So suspending a stopped Observer and then
/// resuming it gives the same Observer as resuming it directly.
pub proof fn law_resume_starts_and_clears_suspension(o: Observer)
    requires
        o.state is Inert || o.state is Faulted,
    ensures
        o.state.is_stopped_state(),
        resumed(o).state is Runnable,
        !resumed(o).suspended,
        resumed(o) == (Observer { state: PrimaryState::Runnable, suspended: false, ..o }),
        suspended(o).state.is_stopped_state(),
        resumed(suspended(o)) == resumed(o),
{
}

} // verus!
