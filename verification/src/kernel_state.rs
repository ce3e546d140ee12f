//! Kernel-wide routing and identifier state.
//!
//! IRQ routing table: maps a GIC INTID to (field_id, badge, generation),
//! direct-indexed by INTID (max 1024). ASID allocator: sequential counter
//! for per-Observer ASID assignment; a wrap calls for a full TLB flush and
//! the counter restarts.

use crate::arena::ObjectId;
use crate::capability::Badge;
use crate::field::Field;
use crate::frame::lock::{Lock, LockOrder};
use crate::frame::slab::SlabStore;
use crate::observer::Observer;
use crate::pulsar::Pulsar;
use crate::space::Space;
use crate::space_manager::SpaceManager;
use crate::time::Time;
use vstd::prelude::*;

verus! {

// ── IRQ routing ────────────────────────────────────────────────────

/// Maximum number of IRQ routes.
///
/// Direct-indexed by GIC INTID. 1024 covers the full GICv3 SPI range
/// (INTIDs 0–1023).
pub const MAX_IRQS: usize = 1024;

/// A single IRQ-to-Field route.
///
/// Maps a device interrupt (identified by GIC INTID) to a delivery Field.
/// The kernel looks up this route on every device IRQ and enqueues a
/// message carrying the route's badge into the target Field.
///
/// The `generation` enables stale-route detection: if the target Field has
/// been revoked (generation mismatch), the interrupt is dropped.
#[derive(Clone, Copy, Debug, PartialEq, Eq, Structural)]
pub struct IrqRoute {
    /// Target Field for interrupt delivery.
    pub field_id: ObjectId,

    /// Badge injected into the interrupt message; identifies the specific
    /// IRQ to the driver Observer.
    pub badge: Badge,

    /// Generation of the target Field at route installation time.
    pub generation: u64,
}

/// IRQ routing table: INTID -> Option<IrqRoute>.
///
/// `routes[intid]` is `Some(route)` if the interrupt is routed, `None` if
/// unrouted.
pub struct IrqRoutingTable {
    /// Direct-indexed array: `routes[intid as usize]` for INTID < MAX_IRQS.
    pub routes: [Option<IrqRoute>; MAX_IRQS],
}

/// The route that device-route population installs for `intid`.
pub open spec fn device_route(field_id: ObjectId, generation: u64, intid: int) -> IrqRoute {
    IrqRoute { field_id, badge: Badge(intid as u64), generation }
}

/// The routing table after device-route population of `[start, end)`.
pub open spec fn populated_routes(
    t: Seq<Option<IrqRoute>>,
    field_id: ObjectId,
    generation: u64,
    start: int,
    end: int,
) -> Seq<Option<IrqRoute>> {
    Seq::new(
        t.len(),
        |i: int|
            if start <= i < end {
                Some(device_route(field_id, generation, i))
            } else {
                t[i]
            },
    )
}

/// Number of INTIDs in `[start, end)` below `MAX_IRQS`.
pub open spec fn routable_count(start: int, end: int) -> int {
    let top = if end < 1024 {
        end
    } else {
        1024
    };
    if top > start {
        top - start
    } else {
        0
    }
}

/// The route's badge lies in `[low, high]`.
pub open spec fn badge_in_range(r: Option<IrqRoute>, low: u64, high: u64) -> bool {
    r matches Some(route) && low <= route.badge.0 <= high
}

/// The routing table after a split repoints the routes whose badge lies
/// in `[low, high]` to a new Field and generation.
pub open spec fn split_routes(
    t: Seq<Option<IrqRoute>>,
    low: u64,
    high: u64,
    field_id: ObjectId,
    generation: u64,
) -> Seq<Option<IrqRoute>> {
    Seq::new(
        t.len(),
        |i: int|
            if badge_in_range(t[i], low, high) {
                Some(IrqRoute { field_id, badge: t[i]->Some_0.badge, generation })
            } else {
                t[i]
            },
    )
}

/// Number of routes in `t` whose badge lies in `[low, high]`.
pub open spec fn count_in_range(t: Seq<Option<IrqRoute>>, low: u64, high: u64) -> nat
    decreases t.len(),
{
    if t.len() == 0 {
        0
    } else {
        count_in_range(t.drop_last(), low, high) + if badge_in_range(t.last(), low, high) {
            1nat
        } else {
            0nat
        }
    }
}

proof fn lemma_count_in_range_bounded(t: Seq<Option<IrqRoute>>, low: u64, high: u64)
    ensures
        count_in_range(t, low, high) <= t.len(),
    decreases t.len(),
{
    if t.len() > 0 {
        lemma_count_in_range_bounded(t.drop_last(), low, high);
    }
}

impl IrqRoutingTable {
    /// Create an empty routing table with no routes installed.
    pub fn new() -> (table: IrqRoutingTable)
        ensures
            forall|i: int| 0 <= i < MAX_IRQS ==> table.routes@[i] is None,
    {
        IrqRoutingTable { routes: [None; MAX_IRQS] }
    }

    /// Look up the route for a given INTID.
    ///
    /// Returns `None` if the INTID is out of range or unrouted. The caller
    /// checks the route's generation against the live Field before
    /// delivering.
    pub fn lookup(&self, intid: u32) -> (r: Option<&IrqRoute>)
        ensures
            (intid as int) < MAX_IRQS && self.routes@[intid as int] is Some <==> r is Some,
            r matches Some(route) ==> *route == self.routes@[intid as int]->Some_0,
    {
        let index = intid as usize;

        if index >= MAX_IRQS {
            return None;
        }

        self.routes[index].as_ref()
    }

    /// Install a route for an INTID, overwriting any existing route.
    ///
    /// Returns `Some(true)` if a previous route was replaced, `Some(false)`
    /// if the slot was empty, and `None` (changing nothing) if the INTID is
    /// out of range.
    pub fn install(&mut self, intid: u32, route: IrqRoute) -> (r: Option<bool>)
        ensures
            (intid as int) >= MAX_IRQS ==> r is None && final(self).routes@ == old(self).routes@,
            (intid as int) < MAX_IRQS ==> r == Some(old(self).routes@[intid as int] is Some)
                && final(self).routes@ == old(self).routes@.update(intid as int, Some(route)),
    {
        let index = intid as usize;

        if index >= MAX_IRQS {
            return None;
        }

        let was_occupied = self.routes[index].is_some();
        self.routes[index] = Some(route);

        Some(was_occupied)
    }

    /// Remove the route for an INTID.
    ///
    /// Returns the removed route, or `None` if the slot was empty or the
    /// INTID is out of range.
    pub fn remove(&mut self, intid: u32) -> (r: Option<IrqRoute>)
        ensures
            (intid as int) >= MAX_IRQS ==> r is None && final(self).routes@ == old(self).routes@,
            (intid as int) < MAX_IRQS ==> r == old(self).routes@[intid as int]
                && final(self).routes@ == old(self).routes@.update(intid as int, None),
    {
        let index = intid as usize;

        if index >= MAX_IRQS {
            return None;
        }

        let removed = self.routes[index];
        self.routes[index] = None;

        removed
    }

    /// Batch-populate routes for device INTIDs (boot-time population).
    ///
    /// Each INTID in `[start_intid, end_intid)` gets a route to the same
    /// target Field with `badge = INTID`: every device interrupt routes to
    /// the root interrupt Field, and the badge tells which device fired.
    /// INTIDs outside `[0, MAX_IRQS)` are skipped. Returns the number of
    /// routes installed.
    pub fn populate_device_routes(
        &mut self,
        field_id: ObjectId,
        generation: u64,
        start_intid: u32,
        end_intid: u32,
    ) -> (count: u32)
        ensures
            final(self).routes@ == populated_routes(
                old(self).routes@,
                field_id,
                generation,
                start_intid as int,
                end_intid as int,
            ),
            count == routable_count(start_intid as int, end_intid as int),
    {
        let mut count: u32 = 0;
        let mut intid = start_intid;

        while intid < end_intid
            invariant
                start_intid <= intid <= end_intid || (start_intid > end_intid && intid
                    == start_intid),
                count == routable_count(start_intid as int, intid as int),
                self.routes@ == populated_routes(
                    old(self).routes@,
                    field_id,
                    generation,
                    start_intid as int,
                    intid as int,
                ),
            decreases end_intid - intid,
        {
            let index = intid as usize;

            if index < MAX_IRQS {
                self.routes[index] = Some(IrqRoute { field_id, badge: Badge(intid as u64), generation });
                count += 1;
            }
            assert(self.routes@ =~= populated_routes(
                old(self).routes@,
                field_id,
                generation,
                start_intid as int,
                intid as int + 1,
            ));
            intid += 1;
        }

        count
    }

    /// Repoint routes whose badge falls within `[badge_low, badge_high]` to
    /// a new destination Field (FieldSplit routing update).
    ///
    /// When FieldSplit creates a sub-Field for a badge range, the routes
    /// whose badge falls in that range move to the new sub-Field with its
    /// generation. Returns the number of routes updated.
    pub fn update_routes_for_split(
        &mut self,
        badge_low: u64,
        badge_high: u64,
        new_field_id: ObjectId,
        new_generation: u64,
    ) -> (count: u32)
        ensures
            final(self).routes@ == split_routes(
                old(self).routes@,
                badge_low,
                badge_high,
                new_field_id,
                new_generation,
            ),
            count == count_in_range(old(self).routes@, badge_low, badge_high),
    {
        let mut count: u32 = 0;
        let mut index: usize = 0;

        while index < MAX_IRQS
            invariant
                index <= MAX_IRQS,
                count == count_in_range(old(self).routes@.take(index as int), badge_low, badge_high),
                count <= index,
                forall|i: int|
                    0 <= i < MAX_IRQS ==> #[trigger] self.routes@[i] == (if i < index {
                        split_routes(
                            old(self).routes@,
                            badge_low,
                            badge_high,
                            new_field_id,
                            new_generation,
                        )[i]
                    } else {
                        old(self).routes@[i]
                    }),
            decreases MAX_IRQS - index,
        {
            assert(old(self).routes@.take(index as int + 1).drop_last() == old(self).routes@.take(
                index as int,
            ));
            if let Some(route) = self.routes[index] {
                let badge_val = route.badge.0;

                if badge_val >= badge_low && badge_val <= badge_high {
                    self.routes[index] = Some(
                        IrqRoute { field_id: new_field_id, badge: route.badge, generation: new_generation },
                    );
                    count += 1;
                }
            }
            index += 1;
        }
        assert(old(self).routes@.take(MAX_IRQS as int) == old(self).routes@);
        assert(self.routes@ =~= split_routes(
            old(self).routes@,
            badge_low,
            badge_high,
            new_field_id,
            new_generation,
        ));

        count
    }
}

impl Default for IrqRoutingTable {
    fn default() -> (table: IrqRoutingTable)
        ensures
            forall|i: int| 0 <= i < MAX_IRQS ==> table.routes@[i] is None,
    {
        Self::new()
    }
}

// ── ASID allocation ────────────────────────────────────────────────

/// Per-VA vs per-ASID TLB invalidation threshold.
///
/// When unmapping a Space from an Observer, if `page_count <=
/// ASID_TLBI_THRESHOLD` the kernel invalidates per VA; above it, it
/// flushes all entries for the Observer's ASID in one instruction.
pub const ASID_TLBI_THRESHOLD: usize = 16;

/// How the TLB is cleaned after a Space is unmapped from an Observer.
#[derive(Clone, Copy, Debug, PartialEq, Eq, Structural)]
pub enum TlbInvalidation {
    /// Invalidate each page of the Space by VA.
    PerPage,
    /// Invalidate every entry of the Observer's ASID at once.
    WholeAsid,
}

/// Pick the invalidation for unmapping a Space of `page_count` pages: by
/// VA up to [`ASID_TLBI_THRESHOLD`] pages, by ASID above it.
pub fn tlb_invalidation_for(page_count: usize) -> (how: TlbInvalidation)
    ensures
        how == (if page_count <= ASID_TLBI_THRESHOLD {
            TlbInvalidation::PerPage
        } else {
            TlbInvalidation::WholeAsid
        }),
{
    if page_count <= ASID_TLBI_THRESHOLD {
        TlbInvalidation::PerPage
    } else {
        TlbInvalidation::WholeAsid
    }
}

/// Sequential ASID allocator.
///
/// Each Observer receives a unique ASID at creation. ARM64 supports 8-bit
/// or 16-bit ASIDs; the allocator uses the maximum available width.
///
/// Assignment is sequential with no recycling, which avoids a reused ASID
/// matching stale TLB entries of a destroyed Observer. When the counter
/// wraps, the caller must flush all user TLB entries and the counter
/// restarts at 1.
pub struct AsidAllocator {
    next_asid: u16,
    max_asid: u16,
}

/// Result of an ASID allocation.
///
/// `wrapped` signals that the counter rolled over and all user TLB entries
/// must be flushed before the returned ASID can be safely used.
pub struct AsidAllocation {
    pub asid: u16,
    pub wrapped: bool,
}

/// Highest ASID for a hardware ASID width of 8 or 16 bits.
pub open spec fn max_asid_for_width(asid_width: u8) -> u16 {
    if asid_width >= 16 {
        u16::MAX
    } else {
        255u16
    }
}

impl AsidAllocator {
    #[verifier::type_invariant]
    spec fn counter_in_range(&self) -> bool {
        1 <= self.next_asid <= self.max_asid
    }

    /// The ASID the next allocation returns.
    pub closed spec fn spec_next_asid(&self) -> u16 {
        self.next_asid
    }

    /// The highest ASID this allocator produces.
    pub closed spec fn spec_max_asid(&self) -> u16 {
        self.max_asid
    }

    /// Create a new allocator for the given ASID width (8 or 16 bits).
    ///
    /// Starts at ASID 1: ASID 0 is architecturally reserved for global
    /// entries (translations with nG=0 match any ASID).
    pub fn new(asid_width: u8) -> (alloc: AsidAllocator)
        requires
            asid_width == 8 || asid_width == 16,
        ensures
            alloc.spec_next_asid() == 1,
            alloc.spec_max_asid() == max_asid_for_width(asid_width),
    {
        let max_asid = if asid_width >= 16 {
            u16::MAX
        } else {
            255
        };

        AsidAllocator { next_asid: 1, max_asid }
    }

    /// Allocate the next sequential ASID.
    ///
    /// Returns the ASID and whether a wrap occurred: the allocation that
    /// hands out the maximum ASID wraps, and the counter restarts at 1. On
    /// wrap the caller MUST flush all user TLB entries before using the
    /// returned ASID.
    pub fn allocate(&mut self) -> (r: AsidAllocation)
        ensures
            r.asid == old(self).spec_next_asid(),
            1 <= r.asid <= old(self).spec_max_asid(),
            r.wrapped == (r.asid == old(self).spec_max_asid()),
            final(self).spec_max_asid() == old(self).spec_max_asid(),
            final(self).spec_next_asid() == (if r.wrapped {
                1
            } else {
                r.asid + 1
            }),
    {
        proof {
            use_type_invariant(&*self);
        }
        let asid = self.next_asid;

        if asid >= self.max_asid {
            self.next_asid = 1;

            AsidAllocation { asid, wrapped: true }
        } else {
            self.next_asid = asid + 1;

            AsidAllocation { asid, wrapped: false }
        }
    }

    /// The maximum ASID value this allocator will produce (2^width - 1).
    pub fn max_asid(&self) -> (m: u16)
        ensures
            m == self.spec_max_asid(),
    {
        self.max_asid
    }

    /// The next ASID that will be returned.
    pub fn next_asid(&self) -> (n: u16)
        ensures
            n == self.spec_next_asid(),
            1 <= n <= self.spec_max_asid(),
    {
        proof {
            use_type_invariant(self);
        }
        self.next_asid
    }
}

/// The ASID that the `j`-th allocation (counting from 0) returns, for an
/// allocator whose next ASID is `next` and whose highest is `max`.
pub open spec fn nth_asid(next: int, max: int, j: nat) -> int
    decreases j,
{
    if j == 0 {
        next
    } else {
        nth_asid(if next >= max { 1 } else { next + 1 }, max, (j - 1) as nat)
    }
}

/// Within one generation ASIDs are handed out in sequence with no
/// repetition: the allocations before the wrap return `next`, `next + 1`,
/// ..., `max`, pairwise distinct, and the one after the wrap returns 1.
pub proof fn law_asids_sequential_until_wrap(next: int, max: int, i: nat, j: nat)
    requires
        1 <= next <= max,
        i < j <= max - next,
    ensures
        nth_asid(next, max, i) == next + i,
        nth_asid(next, max, j) == next + j,
        nth_asid(next, max, i) != nth_asid(next, max, j),
        nth_asid(next, max, (max - next + 1) as nat) == 1,
{
    lemma_nth_asid_in_generation(next, max, i);
    lemma_nth_asid_in_generation(next, max, j);
    lemma_nth_asid_in_generation(next, max, (max - next) as nat);
    lemma_nth_asid_step(next, max, (max - next) as nat);
}

/// Before the wrap, the `j`-th allocation returns `next + j`.
proof fn lemma_nth_asid_in_generation(next: int, max: int, j: nat)
    requires
        1 <= next <= max,
        j <= max - next,
    ensures
        nth_asid(next, max, j) == next + j,
    decreases j,
{
    if j > 0 {
        lemma_nth_asid_in_generation(next + 1, max, (j - 1) as nat);
    }
}

/// One more allocation after the `j`-th follows the allocator's step.
proof fn lemma_nth_asid_step(next: int, max: int, j: nat)
    ensures
        nth_asid(next, max, j + 1) == (if nth_asid(next, max, j) >= max {
            1
        } else {
            nth_asid(next, max, j) + 1
        }),
    decreases j,
{
    if j > 0 {
        lemma_nth_asid_step(if next >= max { 1 } else { next + 1 }, max, (j - 1) as nat);
        assert(((j - 1) as nat) + 1 == j);
    } else {
        reveal_with_fuel(nth_asid, 2);
    }
}

// ── Kernel-wide shared state ────────────────────────────────────────

/// Kernel-wide shared cold-path state: the per-type object arenas, the
/// Space manager, the IRQ routing table and the ASID allocator, each
/// behind a lock tagged with its place in the lock order.
///
/// Field, Observer and Pulsar are ordered, and must be taken in that order;
/// Space, Time, the Space manager, IRQ routing and ASID allocation are
/// unordered and may be taken at any time.
pub struct KernelState {
    /// Arena of Field objects.
    pub fields: Lock<SlabStore<Field>>,
    /// Arena of Observer objects.
    pub observers: Lock<SlabStore<Observer>>,
    /// Arena of Pulsar objects.
    pub pulsars: Lock<SlabStore<Pulsar>>,
    /// Arena of Space objects.
    pub spaces: Lock<SlabStore<Space>>,
    /// Arena of Time objects.
    pub times: Lock<SlabStore<Time>>,
    /// Physical memory allocation and VA assignment.
    pub space_manager: Lock<SpaceManager>,
    /// IRQ routing table: INTID -> Field delivery route.
    pub irq_routes: Lock<IrqRoutingTable>,
    /// Sequential ASID allocator.
    pub asid_allocator: Lock<AsidAllocator>,
}

/// An arena lock as the kernel state starts with it: its order, and an
/// empty, consistent slab store behind it.
pub open spec fn empty_arena<T>(lock: Lock<SlabStore<T>>, order: LockOrder) -> bool {
    &&& lock.spec_order() == order
    &&& lock.value().wf()
    &&& lock.value().contents() == Map::<u32, T>::empty()
    &&& lock.value().free_stack() == Seq::<u32>::empty()
    &&& lock.value().slot_count() == 0
}

impl KernelState {
    /// Construct the kernel state with the given Space manager and ASID
    /// width (8 or 16 bits). The arenas start empty; every lock carries
    /// its order.
    pub fn new(space_manager: SpaceManager, asid_width: u8) -> (state: KernelState)
        requires
            asid_width == 8 || asid_width == 16,
        ensures
            empty_arena(state.fields, LockOrder::Field),
            empty_arena(state.observers, LockOrder::Observer),
            empty_arena(state.pulsars, LockOrder::Pulsar),
            empty_arena(state.spaces, LockOrder::Space),
            empty_arena(state.times, LockOrder::Time),
            state.space_manager.spec_order() == LockOrder::SpaceManager,
            state.space_manager.value() == space_manager,
            state.irq_routes.spec_order() == LockOrder::IrqRouting,
            forall|i: int| 0 <= i < MAX_IRQS ==> state.irq_routes.value().routes@[i] is None,
            state.asid_allocator.spec_order() == LockOrder::AsidAllocator,
            state.asid_allocator.value().spec_next_asid() == 1,
            state.asid_allocator.value().spec_max_asid() == max_asid_for_width(asid_width),
    {
        KernelState {
            fields: Lock::new(LockOrder::Field, SlabStore::new()),
            observers: Lock::new(LockOrder::Observer, SlabStore::new()),
            pulsars: Lock::new(LockOrder::Pulsar, SlabStore::new()),
            spaces: Lock::new(LockOrder::Space, SlabStore::new()),
            times: Lock::new(LockOrder::Time, SlabStore::new()),
            space_manager: Lock::new(LockOrder::SpaceManager, space_manager),
            irq_routes: Lock::new(LockOrder::IrqRouting, IrqRoutingTable::new()),
            asid_allocator: Lock::new(LockOrder::AsidAllocator, AsidAllocator::new(asid_width)),
        }
    }
}

/// Installing a route makes the lookup for that INTID return it; removing
/// it makes the lookup return nothing. Other INTIDs are unaffected.
pub proof fn law_route_install_then_lookup(
    t: Seq<Option<IrqRoute>>,
    intid: int,
    route: IrqRoute,
    other: int,
)
    requires
        t.len() == MAX_IRQS,
        0 <= intid < MAX_IRQS,
        0 <= other < MAX_IRQS,
        other != intid,
    ensures
        t.update(intid, Some(route))[intid] == Some(route),
        t.update(intid, Some(route)).update(intid, None)[intid] is None,
        t.update(intid, Some(route))[other] == t[other],
{
}

/// Device-route population installs at most one route per INTID: the
/// count never exceeds the table size.
pub proof fn law_populate_count_bounded(start: int, end: int)
    requires
        0 <= start,
    ensures
        routable_count(start, end) <= MAX_IRQS,
{
}

/// A split repoints at most every route in the table.
pub proof fn law_split_count_bounded(t: Seq<Option<IrqRoute>>, low: u64, high: u64)
    ensures
        count_in_range(t, low, high) <= t.len(),
{
    lemma_count_in_range_bounded(t, low, high);
}

/// A split changes only the destination and the generation of the routes
/// it takes: a route whose badge lies in `[low, high]` now goes to the new
/// Field at the new generation and keeps its badge, so the driver still
/// learns which INTID fired; every other entry, routed or not, is left as
/// it was.
pub proof fn law_split_keeps_badges(
    t: Seq<Option<IrqRoute>>,
    low: u64,
    high: u64,
    field_id: ObjectId,
    generation: u64,
    i: int,
)
    requires
        0 <= i < t.len(),
    ensures
        split_routes(t, low, high, field_id, generation).len() == t.len(),
        forall|r: IrqRoute|
            t[i] == Some(r) && low <= r.badge.0 <= high ==> split_routes(
                t,
                low,
                high,
                field_id,
                generation,
            )[i] == Some(IrqRoute { field_id, badge: r.badge, generation }),
        forall|r: IrqRoute|
            t[i] == Some(r) && !(low <= r.badge.0 <= high) ==> split_routes(
                t,
                low,
                high,
                field_id,
                generation,
            )[i] == t[i],
        t[i] is None ==> split_routes(t, low, high, field_id, generation)[i] is None,
{
}

} // verus!
