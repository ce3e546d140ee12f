//! Lock with lock-ordering metadata.
//!
//! Global-arena concurrency model: one lock per `Arena<T>`, acquired in the
//! order Arena<Field> < Arena<Observer> < Arena<Pulsar>. Arena<Space>,
//! Arena<Time> and the other kernel-internal tables are unordered.
//!
//! `Lock<T>` owns its data; a [`LockGuard`] gives exclusive access to it
//! for as long as the guard lives, so the lock-before-access discipline is
//! enforced by the type system. Acquisition takes the lock exclusively
//! (`&mut`), which is what makes the guard's access exclusive here.

use core::cmp::Ordering;
use vstd::prelude::*;
use vstd::std_specs::cmp::{PartialOrdSpec, PartialOrdSpecImpl};

verus! {

// ── Lock ordering constants ────────────────────────────────────────

/// Lock acquisition order. Lower values must be acquired first.
///
/// The ordering follows from the IPC data flow: send checks Field then
/// wakes Observer; timer fire enqueues into a Field from Pulsar context;
/// the fault path releases Observer, acquires Field, re-acquires Observer.
#[derive(Clone, Copy, Debug, PartialEq, Eq, Ord, Structural)]
pub enum LockOrder {
    /// Arena<Space> — unordered with Field/Observer/Pulsar.
    Space,
    /// Arena<Time> — unordered with Field/Observer/Pulsar.
    Time,
    /// Arena<Field> — must be acquired before Observer and Pulsar.
    Field,
    /// Arena<Observer> — must be acquired after Field, before Pulsar.
    Observer,
    /// Arena<Pulsar> — must be acquired after Field and Observer.
    Pulsar,
    /// SpaceManager — unordered, like Space and Time.
    SpaceManager,
    /// IRQ routing table — unordered; acquired independently on the
    /// interrupt path.
    IrqRouting,
    /// ASID allocator — unordered; acquired during Observer creation.
    AsidAllocator,
}

/// Position of a lock order in the acquisition order (declaration order).
pub open spec fn order_rank(o: LockOrder) -> int {
    match o {
        LockOrder::Space => 0,
        LockOrder::Time => 1,
        LockOrder::Field => 2,
        LockOrder::Observer => 3,
        LockOrder::Pulsar => 4,
        LockOrder::SpaceManager => 5,
        LockOrder::IrqRouting => 6,
        LockOrder::AsidAllocator => 7,
    }
}

impl LockOrder {
    /// Position in the acquisition order.
    fn rank(&self) -> (r: u8)
        ensures
            r == order_rank(*self),
    {
        match self {
            LockOrder::Space => 0,
            LockOrder::Time => 1,
            LockOrder::Field => 2,
            LockOrder::Observer => 3,
            LockOrder::Pulsar => 4,
            LockOrder::SpaceManager => 5,
            LockOrder::IrqRouting => 6,
            LockOrder::AsidAllocator => 7,
        }
    }
}

impl PartialOrd for LockOrder {
    fn partial_cmp(&self, other: &LockOrder) -> (r: Option<Ordering>) {
        let a = self.rank();
        let b = other.rank();
        if a < b {
            Some(Ordering::Less)
        } else if a > b {
            Some(Ordering::Greater)
        } else {
            Some(Ordering::Equal)
        }
    }
}

impl PartialOrdSpecImpl for LockOrder {
    open spec fn obeys_partial_cmp_spec() -> bool {
        true
    }

    open spec fn partial_cmp_spec(&self, other: &LockOrder) -> Option<Ordering> {
        if order_rank(*self) < order_rank(*other) {
            Some(Ordering::Less)
        } else if order_rank(*self) > order_rank(*other) {
            Some(Ordering::Greater)
        } else {
            Some(Ordering::Equal)
        }
    }
}

/// The strict acquisition order: Field before Observer before Pulsar.
pub proof fn law_field_observer_pulsar_order()
    ensures
        PartialOrdSpec::partial_cmp_spec(&LockOrder::Field, &LockOrder::Observer) == Some(Ordering::Less),
        PartialOrdSpec::partial_cmp_spec(&LockOrder::Observer, &LockOrder::Pulsar) == Some(Ordering::Less),
        PartialOrdSpec::partial_cmp_spec(&LockOrder::Field, &LockOrder::Pulsar) == Some(Ordering::Less),
{
}

impl LockOrder {
    /// Whether this lock order participates in the strict ordering.
    ///
    /// Only Field, Observer, and Pulsar participate in the strict ordering
    /// chain; every other lock may be taken in any order relative to the
    /// others.
    pub fn is_ordered(&self) -> (b: bool)
        ensures
            b == (*self is Field || *self is Observer || *self is Pulsar),
    {
        matches!(self, LockOrder::Field | LockOrder::Observer | LockOrder::Pulsar)
    }
}

// ── Lock<T> ────────────────────────────────────────────────────────

/// A lock protecting a value of type T, tagged with its ordering position.
pub struct Lock<T> {
    order: LockOrder,
    data: T,
}

impl<T> Lock<T> {
    /// The protected value.
    pub closed spec fn value(&self) -> T {
        self.data
    }

    /// The lock's ordering position.
    pub closed spec fn spec_order(&self) -> LockOrder {
        self.order
    }

    /// Create a new lock wrapping `value` with the given ordering.
    pub fn new(order: LockOrder, value: T) -> (lock: Lock<T>)
        ensures
            lock.value() == value,
            lock.spec_order() == order,
    {
        Lock { order, data: value }
    }

    /// Acquire the lock, returning a guard that gives exclusive access to
    /// the protected value until it is dropped.
    pub fn acquire(&mut self) -> (guard: LockGuard<'_, T>)
        ensures
            *guard.lock == *old(self),
            *final(guard.lock) == *final(self),
    {
        LockGuard { lock: self }
    }

    /// The ordering position of this lock.
    pub fn order(&self) -> (order: LockOrder)
        ensures
            order == self.spec_order(),
    {
        self.order
    }
}

// ── LockGuard<T> ──────────────────────────────────────────────────

/// Guard providing exclusive access to the locked value; dropping it
/// releases the lock.
pub struct LockGuard<'a, T> {
    pub lock: &'a mut Lock<T>,
}

impl<'a, T> core::ops::Deref for LockGuard<'a, T> {
    type Target = T;

    fn deref(&self) -> (r: &T)
        ensures
            *r == old(self.lock).value(),
    {
        &self.lock.data
    }
}

impl<'a, T> core::ops::DerefMut for LockGuard<'a, T> {
    fn deref_mut(&mut self) -> (r: &mut T)
        ensures
            *r == old(old(self).lock).value(),
            final(self).lock.value() == *final(r),
            *final(final(self).lock) == *final(old(self).lock),
            final(self).lock.spec_order() == old(old(self).lock).spec_order(),
    {
        &mut self.lock.data
    }
}

impl<'a, T> LockGuard<'a, T> {
    /// The ordering position of the held lock.
    pub fn order(&self) -> (order: LockOrder)
        ensures
            order == old(self.lock).spec_order(),
    {
        self.lock.order
    }
}

} // verus!
