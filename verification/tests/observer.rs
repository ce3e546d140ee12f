use kernel::observer::{DEFAULT_RESPONSIVENESS, DEFAULT_THROUGHPUT, Observer, ObserverError, PrimaryState, RegisterStateHandle, SavedSyscallContext, WaitEntry, WaitState};
use kernel::capability::Table;
use kernel::arena::ObjectId;
use core::sync::atomic::AtomicU64;

/// Base Observer: Runnable, placeholder addresses, 100 compute.
fn test_default() -> Observer {
    Observer {
        object_id: ObjectId(0),
        asid: 0,
        asid_generation: 0,
        register_state: RegisterStateHandle::new(0x1000),
        page_table_root: 0,
        cap_table: 0x2000,
        cap_table_capacity: 0,
        cap_table_free_head: None,
        cap_table_count: 0,
        state: PrimaryState::Runnable,
        suspended: false,
        compute_aggregate: 100,
        responsiveness: DEFAULT_RESPONSIVENESS,
        throughput: DEFAULT_THROUGHPUT,
        clock_access: false,
        wait_state: WaitState::NotWaiting,
        saved_syscall: SavedSyscallContext::NoReplay,
        refcount: 1,
        generation: AtomicU64::new(0),
        backing_va_base: 0,
        backing_size: 0,
    }
}

#[test]
fn default_profile_is_valid() {
    assert!(Observer::validate_profile(DEFAULT_RESPONSIVENESS, DEFAULT_THROUGHPUT).is_ok());
}

#[test]
fn profile_rejects_overflow() {
    assert!(Observer::validate_profile(100, 100).is_err());
    assert!(Observer::validate_profile(129, 0).is_err());
}

#[test]
fn precision_is_derived() {
    let mut observer = test_default();

    observer.state = PrimaryState::Inert;
    observer.compute_aggregate = 0;
    observer.responsiveness = 43;
    observer.throughput = 43;

    assert_eq!(observer.precision(), 42);
}

#[test]
fn resume_from_inert() {
    let mut observer = test_default();

    observer.state = PrimaryState::Inert;
    observer.compute_aggregate = 0;

    assert!(observer.resume().is_ok());
    assert!(matches!(observer.state, PrimaryState::Runnable));
}

#[test]
fn resume_from_runnable_fails() {
    let mut observer = test_default();

    observer.compute_aggregate = 0;

    assert!(observer.resume().is_err());
}

#[test]
fn compute_aggregate_tracking() {
    let mut observer = test_default();

    observer.state = PrimaryState::Inert;
    observer.compute_aggregate = 0;

    observer.add_compute(100);
    observer.add_compute(50);

    assert_eq!(observer.compute_aggregate, 150);

    observer.remove_compute(30);

    assert_eq!(observer.compute_aggregate, 120);
}

#[test]
fn unblock_while_suspended_transitions_but_signals_no_enqueue() {
    let mut observer = test_default();

    observer.state = PrimaryState::Blocked;
    observer.suspended = true;
    observer.compute_aggregate = 0;

    let should_enqueue = observer.unblock().unwrap();

    assert!(!should_enqueue, "suspended Observer should not be enqueued");
    assert!(matches!(observer.state, PrimaryState::Runnable));
    assert!(observer.suspended, "suspension overlay preserved");
}

#[test]
fn unblock_without_suspension_signals_enqueue() {
    let mut observer = test_default();

    observer.state = PrimaryState::Blocked;
    observer.compute_aggregate = 0;

    let should_enqueue = observer.unblock().unwrap();

    assert!(should_enqueue, "non-suspended Observer should be enqueued");
    assert!(matches!(observer.state, PrimaryState::Runnable));
}

// ── block() coverage ─────────────────────────────────────────────

#[test]
fn block_from_runnable_sets_blocked_and_wait_state() {
    let mut observer = test_default();
    let wait = WaitState::Single(WaitEntry {
        observer: 0x3000,
        field: 0x4000,
        prev: None,
        next: None,
    });

    assert!(observer.block(wait).is_ok());
    assert!(matches!(observer.state, PrimaryState::Blocked));
    assert!(matches!(observer.wait_state, WaitState::Single(_)));
}

#[test]
fn block_from_inert_fails() {
    let mut observer = test_default();

    observer.state = PrimaryState::Inert;

    assert_eq!(
        observer.block(WaitState::NotWaiting).unwrap_err(),
        ObserverError::InvalidTransition
    );
}

#[test]
fn block_from_blocked_fails() {
    let mut observer = test_default();

    observer.state = PrimaryState::Blocked;

    assert_eq!(
        observer.block(WaitState::NotWaiting).unwrap_err(),
        ObserverError::InvalidTransition
    );
}

#[test]
fn block_from_faulted_fails() {
    let mut observer = test_default();

    observer.state = PrimaryState::Faulted;

    assert_eq!(
        observer.block(WaitState::NotWaiting).unwrap_err(),
        ObserverError::InvalidTransition
    );
}

#[test]
fn block_then_unblock_roundtrip() {
    let mut observer = test_default();

    observer.block(WaitState::NotWaiting).unwrap();

    assert!(matches!(observer.state, PrimaryState::Blocked));

    let should_enqueue = observer.unblock().unwrap();

    assert!(should_enqueue);
    assert!(matches!(observer.state, PrimaryState::Runnable));
    assert!(matches!(observer.wait_state, WaitState::NotWaiting));
}

// ── fault() coverage ─────────────────────────────────────────────

#[test]
fn fault_from_runnable_succeeds() {
    let mut observer = test_default();

    assert!(observer.fault().is_ok());
    assert!(matches!(observer.state, PrimaryState::Faulted));
}

#[test]
fn fault_from_inert_fails() {
    let mut observer = test_default();

    observer.state = PrimaryState::Inert;

    assert_eq!(
        observer.fault().unwrap_err(),
        ObserverError::InvalidTransition
    );
}

#[test]
fn fault_from_blocked_fails() {
    let mut observer = test_default();

    observer.state = PrimaryState::Blocked;

    assert_eq!(
        observer.fault().unwrap_err(),
        ObserverError::InvalidTransition
    );
}

#[test]
fn fault_then_resume_roundtrip() {
    let mut observer = test_default();

    observer.fault().unwrap();

    assert!(matches!(observer.state, PrimaryState::Faulted));

    observer.resume().unwrap();

    assert!(matches!(observer.state, PrimaryState::Runnable));
}

// ── suspend() + resume() interactions ────────────────────────────

#[test]
fn suspend_sets_flag() {
    let mut observer = test_default();

    assert!(!observer.suspended);

    observer.suspend();

    assert!(observer.suspended);
}

#[test]
fn suspend_is_idempotent() {
    let mut observer = test_default();

    observer.suspend();
    observer.suspend();

    assert!(observer.suspended);
    assert!(matches!(observer.state, PrimaryState::Runnable));
}

#[test]
fn resume_from_faulted_clears_suspension() {
    let mut observer = test_default();

    observer.fault().unwrap();
    observer.suspend();

    assert!(observer.suspended);
    assert!(matches!(observer.state, PrimaryState::Faulted));

    observer.resume().unwrap();

    assert!(!observer.suspended);
    assert!(matches!(observer.state, PrimaryState::Runnable));
}

// ── set_scheduling() coverage ────────────────────────────────────

#[test]
fn set_scheduling_valid_profile() {
    let mut observer = test_default();

    assert!(observer.set_scheduling(60, 60).is_ok());
    assert_eq!(observer.responsiveness, 60);
    assert_eq!(observer.throughput, 60);
    assert_eq!(observer.precision(), 8);
}

#[test]
fn set_scheduling_all_responsiveness() {
    let mut observer = test_default();

    assert!(observer.set_scheduling(128, 0).is_ok());
    assert_eq!(observer.precision(), 0);
}

#[test]
fn set_scheduling_all_throughput() {
    let mut observer = test_default();

    assert!(observer.set_scheduling(0, 128).is_ok());
    assert_eq!(observer.precision(), 0);
}

#[test]
fn set_scheduling_even_split() {
    let mut observer = test_default();

    assert!(observer.set_scheduling(64, 64).is_ok());
    assert_eq!(observer.precision(), 0);
}

#[test]
fn set_scheduling_overflow_fails() {
    let mut observer = test_default();
    let original_r = observer.responsiveness;
    let original_t = observer.throughput;

    assert_eq!(
        observer.set_scheduling(100, 100).unwrap_err(),
        ObserverError::InvalidProfile
    );
    assert_eq!(
        observer.responsiveness, original_r,
        "must not mutate on error"
    );
    assert_eq!(observer.throughput, original_t, "must not mutate on error");
}

// ── revoke() coverage ────────────────────────────────────────────

#[test]
fn observer_revoke_increments_generation() {
    let observer = test_default();
    let gen_before = observer
        .generation
        .load(core::sync::atomic::Ordering::Acquire);

    observer.revoke();

    let gen_after = observer
        .generation
        .load(core::sync::atomic::Ordering::Acquire);

    assert_eq!(gen_after, gen_before + 1);
}

#[test]
fn revoke_is_cumulative() {
    let observer = test_default();

    observer.revoke();
    observer.revoke();
    observer.revoke();

    assert_eq!(
        observer
            .generation
            .load(core::sync::atomic::Ordering::Acquire),
        3
    );
}

// ── remove_compute() saturation ──────────────────────────────────

#[test]
fn remove_compute_saturates_at_zero() {
    let mut observer = test_default();

    observer.compute_aggregate = 10;
    observer.remove_compute(100);

    assert_eq!(observer.compute_aggregate, 0);
}

// ── is_stopped() coverage ────────────────────────────────────────

#[test]
fn is_stopped_matches_inert_and_faulted() {
    assert!(PrimaryState::Inert.is_stopped());
    assert!(PrimaryState::Faulted.is_stopped());
    assert!(!PrimaryState::Runnable.is_stopped());
    assert!(!PrimaryState::Blocked.is_stopped());
}

#[test]
fn register_state_handle_keeps_address() {
    let handle = RegisterStateHandle::new(0xDEAD_0000);

    assert_eq!(handle.as_ptr(), 0xDEAD_0000);
}

#[test]
fn block_then_unblock_keeps_suspension_and_profile() {
    let mut observer = test_default();

    observer.set_scheduling(10, 20).unwrap();
    observer.suspend();
    observer.block(WaitState::Multi { head: 0x5000 }).unwrap();

    assert_eq!(observer.unblock(), Ok(false));
    assert!(observer.suspended);
    assert!(matches!(observer.wait_state, WaitState::NotWaiting));
    assert_eq!(observer.precision(), 98);
}

#[test]
fn unblock_from_runnable_fails_without_change() {
    let mut observer = test_default();

    assert_eq!(observer.unblock(), Err(ObserverError::InvalidTransition));
    assert!(matches!(observer.state, PrimaryState::Runnable));
}

#[test]
fn add_compute_then_remove_all_returns_to_start() {
    let mut observer = test_default();

    observer.add_compute(25);
    observer.remove_compute(25);

    assert_eq!(observer.compute_aggregate, 100);
}

#[test]
fn with_cap_table_writes_back_free_head_and_count() {
    let mut obs = test_default();
    obs.cap_table = 0x4000;
    obs.cap_table_capacity = 8;
    obs.cap_table_free_head = Some(3);
    obs.cap_table_count = 0;

    let seen = obs.with_cap_table(|mut table: Table| {
        let seen = (table.entries, table.capacity, table.free_head, table.count);
        table.free_head = Some(4);
        table.count = 1;
        table.capacity = 99;
        (table, seen)
    });

    assert_eq!(seen, (0x4000, 8, Some(3), 0));
    assert_eq!(obs.cap_table_free_head, Some(4));
    assert_eq!(obs.cap_table_count, 1);
    // Only the free-list head and the count are written back.
    assert_eq!(obs.cap_table_capacity, 8);
    assert_eq!(obs.cap_table, 0x4000);
}
