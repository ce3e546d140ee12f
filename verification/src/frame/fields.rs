//! Field building blocks: the badge-range routing table, the waiter list
//! and the message queue.
//!
//! A routing table maps disjoint badge ranges `[low, high]` to destination
//! Fields. Entries are kept sorted by `badge_low`, so a lookup is a binary
//! search; an insertion finds its slot by a linear scan, rejects a range
//! that overlaps a neighbour, and grows the table geometrically up to a
//! fixed maximum. Removing every route to a destination compacts the table.
//!
//! A waiter list is a FIFO doubly linked list threaded through a table of
//! wait entries by index. A message queue is a fixed array of slots that a
//! Field uses as a circular buffer.

use crate::arena::ObjectId;
use crate::observer::WaitEntry;
use vstd::prelude::*;

verus! {

/// Capacity of a routing table when its first route is added.
pub const INITIAL_ROUTING_CAPACITY: u32 = 4;

/// Largest capacity a routing table may grow to.
pub const MAX_ROUTING_CAPACITY: u32 = 256;

/// Errors from Field routing operations.
#[derive(Clone, Copy, Debug, PartialEq, Eq, Structural)]
pub enum FieldError {
    /// The routing table cannot take the route: it is at its maximum
    /// capacity, or the route's badge range overlaps an existing one.
    RoutingTableFull,
}

/// One badge-range route: badges in `[badge_low, badge_high]` go to
/// `destination`, which was live at `destination_generation` when the
/// route was added. `back_prev` and `back_next` link the route into the
/// destination's list of routes that point at it (by address); a new
/// route is linked into none.
#[derive(Clone, Copy, Debug, PartialEq, Eq, Structural)]
pub struct RoutingEntry {
    pub badge_low: u64,
    pub badge_high: u64,
    pub destination: ObjectId,
    pub destination_generation: u64,
    pub back_prev: Option<usize>,
    pub back_next: Option<usize>,
}

/// Sorted array of disjoint badge-range routes.
pub struct RoutingTable {
    entries: Vec<RoutingEntry>,
    capacity: u32,
}

/// The route covers the badge.
pub open spec fn covers(entry: RoutingEntry, badge: u64) -> bool {
    entry.badge_low <= badge <= entry.badge_high
}

/// Entries are sorted by `badge_low`, and every entry's range ends before
/// any later entry's range begins.
pub open spec fn sorted_disjoint(s: Seq<RoutingEntry>) -> bool {
    forall|i: int, j: int|
        0 <= i < j < s.len() ==> #[trigger] s[i].badge_low <= #[trigger] s[j].badge_low
            && s[i].badge_high < s[j].badge_low
}

/// Where a badge is routed: the destination of the entry covering it, if
/// there is one.
pub open spec fn route_of(s: Seq<RoutingEntry>, badge: u64) -> Option<ObjectId> {
    if exists|i: int| 0 <= i < s.len() && covers(#[trigger] s[i], badge) {
        Some(s[choose|i: int| 0 <= i < s.len() && covers(#[trigger] s[i], badge)].destination)
    } else {
        None
    }
}

/// Index of the first entry whose `badge_low` exceeds `low` (the length
/// if there is none): where a route starting at `low` is inserted.
pub open spec fn insert_position(s: Seq<RoutingEntry>, low: u64) -> nat
    decreases s.len(),
{
    if s.len() == 0 {
        0
    } else if s[0].badge_low > low {
        0
    } else {
        1 + insert_position(s.drop_first(), low)
    }
}

/// A route `[low, high]` inserted at `k` would overlap its left or right
/// neighbour.
pub open spec fn overlaps_neighbour(s: Seq<RoutingEntry>, k: int, low: u64, high: u64) -> bool {
    (k > 0 && s[k - 1].badge_high >= low) || (k < s.len() && high >= s[k].badge_low)
}

/// The entries that do not route to `destination`, in their order.
pub open spec fn routes_kept(s: Seq<RoutingEntry>, destination: ObjectId) -> Seq<RoutingEntry>
    decreases s.len(),
{
    if s.len() == 0 {
        s
    } else {
        let rest = routes_kept(s.drop_last(), destination);
        if s.last().destination != destination {
            rest.push(s.last())
        } else {
            rest
        }
    }
}

/// The entry a route `[low, high]` to `destination` is stored as.
pub open spec fn new_entry(low: u64, high: u64, destination: ObjectId, generation: u64) -> RoutingEntry {
    RoutingEntry {
        badge_low: low,
        badge_high: high,
        destination,
        destination_generation: generation,
        back_prev: None,
        back_next: None,
    }
}

impl RoutingTable {
    /// The routes, in table order.
    pub closed spec fn entries(&self) -> Seq<RoutingEntry> {
        self.entries@
    }

    /// Number of entries the table has room for before it must grow.
    pub closed spec fn room(&self) -> u32 {
        self.capacity
    }

    #[verifier::type_invariant]
    closed spec fn well_formed(&self) -> bool {
        &&& sorted_disjoint(self.entries@)
        &&& self.entries@.len() <= self.capacity
        &&& INITIAL_ROUTING_CAPACITY <= self.capacity <= MAX_ROUTING_CAPACITY
    }

    /// Number of routes in the table.
    pub fn count(&self) -> (n: u32)
        ensures
            n == self.entries().len(),
    {
        proof {
            use_type_invariant(self);
        }
        self.entries.len() as u32
    }

    /// Number of routes the table holds before it must grow.
    pub fn capacity(&self) -> (n: u32)
        ensures
            n == self.room(),
    {
        self.capacity
    }
}

/// Under `sorted_disjoint`, at most one entry covers a badge, and it is the
/// last entry whose range starts at or below the badge.
proof fn lemma_cover_is_last_start(s: Seq<RoutingEntry>, badge: u64, i: int, last: int)
    requires
        sorted_disjoint(s),
        0 <= i < s.len(),
        covers(s[i], badge),
        0 <= last < s.len(),
        s[last].badge_low <= badge,
        forall|j: int| last < j < s.len() ==> s[j].badge_low > badge,
    ensures
        i == last,
{
    if i < last {
        assert(s[i].badge_high < s[last].badge_low);
    }
}

/// Route the badge through the table: the destination of the entry whose
/// range contains it, found by binary search over the sorted entries.
pub fn route_lookup(table: &RoutingTable, badge: u64) -> (r: Option<ObjectId>)
    ensures
        r == route_of(table.entries(), badge),
{
    proof {
        use_type_invariant(table);
    }
    let count = table.entries.len();
    let ghost s = table.entries@;
    if count == 0 {
        return None;
    }
    // Find one past the last entry whose range starts at or below the badge.
    let mut lo: usize = 0;
    let mut hi: usize = count;
    while lo < hi
        invariant
            s == table.entries@,
            sorted_disjoint(s),
            count == s.len(),
            0 <= lo <= hi <= count,
            forall|j: int| 0 <= j < lo ==> #[trigger] s[j].badge_low <= badge,
            forall|j: int| hi <= j < count ==> #[trigger] s[j].badge_low > badge,
        decreases hi - lo,
    {
        let mid = lo + (hi - lo) / 2;
        if table.entries[mid].badge_low <= badge {
            assert forall|j: int| 0 <= j < mid + 1 implies #[trigger] s[j].badge_low <= badge by {
                if j < mid {
                    assert(s[j].badge_low <= s[mid as int].badge_low);
                }
            }
            lo = mid + 1;
        } else {
            assert forall|j: int| mid <= j < count implies #[trigger] s[j].badge_low > badge by {
                if j > mid {
                    assert(s[mid as int].badge_low <= s[j].badge_low);
                }
            }
            hi = mid;
        }
    }
    if lo > 0 {
        let candidate = &table.entries[lo - 1];
        if badge >= candidate.badge_low && badge <= candidate.badge_high {
            proof {
                let c = choose|i: int| 0 <= i < s.len() && covers(#[trigger] s[i], badge);
                assert(covers(s[lo - 1], badge));
                lemma_cover_is_last_start(s, badge, c, lo - 1);
            }
            return Some(candidate.destination);
        }
        proof {
            assert forall|i: int| 0 <= i < s.len() implies !covers(#[trigger] s[i], badge) by {
                if covers(s[i], badge) {
                    lemma_cover_is_last_start(s, badge, i, lo - 1);
                }
            }
        }
    }
    None
}

/// The scan that stops at the first entry starting above `low` stops at
/// `insert_position`.
proof fn lemma_insert_position(s: Seq<RoutingEntry>, low: u64, i: int)
    requires
        0 <= i <= s.len(),
        forall|j: int| 0 <= j < i ==> #[trigger] s[j].badge_low <= low,
        i == s.len() || s[i].badge_low > low,
    ensures
        insert_position(s, low) == i,
    decreases i,
{
    if i > 0 {
        assert(s[0].badge_low <= low);
        assert forall|j: int| 0 <= j < i - 1 implies #[trigger] s.drop_first()[j].badge_low
            <= low by {
            assert(s.drop_first()[j] == s[j + 1]);
        }
        lemma_insert_position(s.drop_first(), low, i - 1);
    }
}

/// Inserting a route at its insert position, when it overlaps neither
/// neighbour, keeps the entries sorted and disjoint.
proof fn lemma_insert_keeps_sorted_disjoint(s: Seq<RoutingEntry>, k: int, e: RoutingEntry)
    requires
        sorted_disjoint(s),
        0 <= k <= s.len(),
        forall|j: int| 0 <= j < k ==> #[trigger] s[j].badge_low <= e.badge_low,
        k < s.len() ==> s[k].badge_low > e.badge_low,
        !overlaps_neighbour(s, k, e.badge_low, e.badge_high),
    ensures
        sorted_disjoint(s.insert(k, e)),
{
    let t = s.insert(k, e);
    s.insert_ensures(k, e);
    assert forall|a: int, b: int| 0 <= a < b < t.len() implies #[trigger] t[a].badge_low
        <= #[trigger] t[b].badge_low && t[a].badge_high < t[b].badge_low by {
        if b < k {
            assert(t[a] == s[a] && t[b] == s[b]);
        } else if b == k {
            assert(t[a] == s[a]);
            if a < k - 1 {
                assert(s[a].badge_low <= s[k - 1].badge_low && s[a].badge_high < s[k
                    - 1].badge_low);
            }
        } else {
            assert(t[b] == s[b - 1]);
            if a < k {
                assert(t[a] == s[a]);
            } else if a == k {
                if b - 1 > k {
                    assert(s[k].badge_low <= s[b - 1].badge_low);
                }
            } else {
                assert(t[a] == s[a - 1]);
            }
        }
    }
}

impl RoutingTable {
    /// Add a route to a non-empty table (see [`route_add`]).
    fn add(&mut self, low: u64, high: u64, destination: ObjectId, generation: u64) -> (r: Result<
        (),
        FieldError,
    >)
        ensures
            ({
                let s = old(self).entries();
                let room = old(self).room();
                if s.len() >= room && room * 2 > MAX_ROUTING_CAPACITY {
                    &&& r == Err::<(), FieldError>(FieldError::RoutingTableFull)
                    &&& final(self).entries() == s
                    &&& final(self).room() == room
                } else {
                    let k = insert_position(s, low) as int;
                    &&& final(self).room() == (if s.len() >= room {
                        room * 2
                    } else {
                        room as int
                    })
                    &&& overlaps_neighbour(s, k, low, high) ==> r == Err::<(), FieldError>(
                        FieldError::RoutingTableFull,
                    ) && final(self).entries() == s
                    &&& !overlaps_neighbour(s, k, low, high) ==> r == Ok::<(), FieldError>(())
                        && final(self).entries() == s.insert(
                        k,
                        new_entry(low, high, destination, generation),
                    )
                }
            }),
            sorted_disjoint(final(self).entries()),
    {
        proof {
            use_type_invariant(&*self);
        }
        let count = self.entries.len();
        if count >= self.capacity as usize {
            let new_capacity = match self.capacity.checked_mul(2) {
                Some(c) => c,
                None => return Err(FieldError::RoutingTableFull),
            };
            if new_capacity > MAX_ROUTING_CAPACITY {
                return Err(FieldError::RoutingTableFull);
            }
            self.capacity = new_capacity;
        }
        let ghost s = self.entries@;
        let mut insert_at: usize = 0;
        while insert_at < count && self.entries[insert_at].badge_low <= low
            invariant
                s == self.entries@,
                count == s.len(),
                0 <= insert_at <= count,
                forall|j: int| 0 <= j < insert_at ==> #[trigger] s[j].badge_low <= low,
            decreases count - insert_at,
        {
            insert_at += 1;
        }
        proof {
            lemma_insert_position(s, low, insert_at as int);
            use_type_invariant(&*self);
        }
        if insert_at > 0 && self.entries[insert_at - 1].badge_high >= low {
            return Err(FieldError::RoutingTableFull);
        }
        if insert_at < count && high >= self.entries[insert_at].badge_low {
            return Err(FieldError::RoutingTableFull);
        }
        let entry = RoutingEntry {
            badge_low: low,
            badge_high: high,
            destination,
            destination_generation: generation,
            back_prev: None,
            back_next: None,
        };
        proof {
            lemma_insert_keeps_sorted_disjoint(s, insert_at as int, entry);
        }
        let mut entries: Vec<RoutingEntry> = Vec::new();
        std::mem::swap(&mut entries, &mut self.entries);
        entries.insert(insert_at, entry);
        self.entries = entries;
        Ok(())
    }
}

/// Add a route for badges `[low, high]` to `destination`.
///
/// The first route creates the table with room for four entries. A full
/// table doubles its room, up to 256 entries; beyond that the route is
/// refused with `RoutingTableFull` and nothing changes. The route is
/// inserted where it keeps the entries sorted by `badge_low`; a range that
/// overlaps the neighbour on either side is refused with
/// `RoutingTableFull`, the table keeping its entries (and any room it grew
/// by).
pub fn route_add(
    table: &mut Option<RoutingTable>,
    low: u64,
    high: u64,
    destination: ObjectId,
    destination_generation: u64,
) -> (r: Result<(), FieldError>)
    ensures
        *final(table) is Some,
        sorted_disjoint(final(table).unwrap().entries()),
        *old(table) is None ==> r == Ok::<(), FieldError>(()) && final(table).unwrap().entries() == seq![
            new_entry(low, high, destination, destination_generation),
        ] && final(table).unwrap().room() == INITIAL_ROUTING_CAPACITY,
        *old(table) is Some ==> ({
            let s = old(table).unwrap().entries();
            let room = old(table).unwrap().room();
            let t = final(table).unwrap();
            if s.len() >= room && room * 2 > MAX_ROUTING_CAPACITY {
                &&& r == Err::<(), FieldError>(FieldError::RoutingTableFull)
                &&& t.entries() == s
                &&& t.room() == room
            } else {
                let k = insert_position(s, low) as int;
                &&& t.room() == (if s.len() >= room {
                    room * 2
                } else {
                    room as int
                })
                &&& overlaps_neighbour(s, k, low, high) ==> r == Err::<(), FieldError>(
                    FieldError::RoutingTableFull,
                ) && t.entries() == s
                &&& !overlaps_neighbour(s, k, low, high) ==> r == Ok::<(), FieldError>(())
                    && t.entries() == s.insert(
                    k,
                    new_entry(low, high, destination, destination_generation),
                )
            }
        }),
{
    match table {
        None => {
            let mut entries: Vec<RoutingEntry> = Vec::new();
            entries.push(
                RoutingEntry {
                    badge_low: low,
                    badge_high: high,
                    destination,
                    destination_generation,
                    back_prev: None,
                    back_next: None,
                },
            );
            *table = Some(RoutingTable { entries, capacity: INITIAL_ROUTING_CAPACITY });
            Ok(())
        },
        Some(t) => t.add(low, high, destination, destination_generation),
    }
}

/// Every kept route is one of the given routes.
proof fn lemma_kept_are_listed(s: Seq<RoutingEntry>, destination: ObjectId)
    ensures
        routes_kept(s, destination).len() <= s.len(),
        forall|a: int|
            0 <= a < routes_kept(s, destination).len() ==> exists|j: int|
                0 <= j < s.len() && #[trigger] routes_kept(s, destination)[a] == s[j],
    decreases s.len(),
{
    if s.len() > 0 {
        let d = s.drop_last();
        lemma_kept_are_listed(d, destination);
        let kept = routes_kept(s, destination);
        assert forall|a: int| 0 <= a < kept.len() implies exists|j: int|
            0 <= j < s.len() && #[trigger] kept[a] == s[j] by {
            if a < routes_kept(d, destination).len() {
                let j = choose|j: int| 0 <= j < d.len() && routes_kept(d, destination)[a] == d[j];
                assert(kept[a] == s[j]);
            } else {
                assert(kept[a] == s[s.len() - 1]);
            }
        }
    }
}

/// Dropping the routes to one destination keeps the rest sorted and
/// disjoint.
proof fn lemma_kept_sorted_disjoint(s: Seq<RoutingEntry>, destination: ObjectId)
    requires
        sorted_disjoint(s),
    ensures
        sorted_disjoint(routes_kept(s, destination)),
    decreases s.len(),
{
    if s.len() > 0 {
        let d = s.drop_last();
        assert(sorted_disjoint(d)) by {
            assert forall|i: int, j: int| 0 <= i < j < d.len() implies #[trigger] d[i].badge_low
                <= #[trigger] d[j].badge_low && d[i].badge_high < d[j].badge_low by {
                assert(d[i] == s[i] && d[j] == s[j]);
            }
        }
        lemma_kept_sorted_disjoint(d, destination);
        lemma_kept_are_listed(d, destination);
        let rest = routes_kept(d, destination);
        let kept = routes_kept(s, destination);
        if s.last().destination != destination {
            assert forall|a: int, b: int| 0 <= a < b < kept.len() implies #[trigger] kept[a].badge_low
                <= #[trigger] kept[b].badge_low && kept[a].badge_high < kept[b].badge_low by {
                assert(kept[a] == rest[a]);
                if b < rest.len() {
                    assert(kept[b] == rest[b]);
                } else {
                    let j = choose|j: int| 0 <= j < d.len() && rest[a] == d[j];
                    assert(kept[b] == s[s.len() - 1]);
                    assert(d[j] == s[j]);
                    assert(s[j].badge_low <= s[s.len() - 1].badge_low);
                }
            }
        }
    }
}

impl RoutingTable {
    /// Drop every route to `destination` (see
    /// [`remove_routes_to_destination`]).
    fn remove_to(&mut self, destination: ObjectId) -> (removed: u32)
        ensures
            final(self).entries() == routes_kept(old(self).entries(), destination),
            final(self).room() == old(self).room(),
            removed == old(self).entries().len() - final(self).entries().len(),
    {
        proof {
            use_type_invariant(&*self);
        }
        let count = self.entries.len();
        let ghost s = self.entries@;
        let mut kept: Vec<RoutingEntry> = Vec::new();
        let mut removed: u32 = 0;
        let mut i: usize = 0;
        while i < count
            invariant
                s == self.entries@,
                count == s.len(),
                count <= MAX_ROUTING_CAPACITY,
                0 <= i <= count,
                kept@ == routes_kept(s.subrange(0, i as int), destination),
                removed + kept@.len() == i,
            decreases count - i,
        {
            let entry = self.entries[i];
            proof {
                let t = s.subrange(0, i + 1);
                assert(t.drop_last() =~= s.subrange(0, i as int));
                assert(t.last() == s[i as int]);
                lemma_kept_are_listed(s.subrange(0, i as int), destination);
            }
            if entry.destination == destination {
                removed += 1;
            } else {
                kept.push(entry);
            }
            i += 1;
        }
        proof {
            assert(s.subrange(0, count as int) =~= s);
            lemma_kept_sorted_disjoint(s, destination);
            lemma_kept_are_listed(s, destination);
        }
        self.entries = kept;
        removed
    }
}

/// Remove every route whose destination is `dest_id` (used when a split
/// Field is destroyed, so that no route to it is left), keeping the others
/// in order. Returns how many routes were removed; a missing table has
/// none.
pub fn remove_routes_to_destination(table: &mut Option<RoutingTable>, dest_id: ObjectId) -> (removed: u32)
    ensures
        *old(table) is None ==> removed == 0 && *final(table) is None,
        *old(table) is Some ==> {
            &&& *final(table) is Some
            &&& final(table).unwrap().entries() == routes_kept(old(table).unwrap().entries(), dest_id)
            &&& final(table).unwrap().room() == old(table).unwrap().room()
            &&& removed == old(table).unwrap().entries().len() - final(table).unwrap().entries().len()
        },
{
    match table {
        None => 0,
        Some(t) => t.remove_to(dest_id),
    }
}

/// Under `sorted_disjoint`, two entries covering the same badge are the
/// same entry.
proof fn lemma_unique_cover(s: Seq<RoutingEntry>, badge: u64, i: int, j: int)
    requires
        sorted_disjoint(s),
        0 <= i < s.len(),
        0 <= j < s.len(),
        covers(s[i], badge),
        covers(s[j], badge),
    ensures
        i == j,
{
    if i < j {
        assert(s[i].badge_low <= s[j].badge_low && s[i].badge_high < s[j].badge_low);
    } else if j < i {
        assert(s[j].badge_low <= s[i].badge_low && s[j].badge_high < s[i].badge_low);
    }
}

/// What the insert position promises: every earlier entry starts at or
/// below `low`, and the entry at it (if any) starts above.
proof fn lemma_insert_position_bounds(s: Seq<RoutingEntry>, low: u64)
    ensures
        insert_position(s, low) <= s.len(),
        forall|j: int| 0 <= j < insert_position(s, low) ==> #[trigger] s[j].badge_low <= low,
        insert_position(s, low) < s.len() ==> s[insert_position(s, low) as int].badge_low > low,
    decreases s.len(),
{
    if s.len() > 0 && s[0].badge_low <= low {
        let d = s.drop_first();
        lemma_insert_position_bounds(d, low);
        assert forall|j: int| 0 <= j < insert_position(s, low) implies #[trigger] s[j].badge_low
            <= low by {
            if j > 0 {
                assert(s[j] == d[j - 1]);
            }
        }
        if insert_position(s, low) < s.len() {
            assert(s[insert_position(s, low) as int] == d[insert_position(d, low) as int]);
        }
    }
}

/// Every given route that does not go to `destination` is kept.
proof fn lemma_kept_keeps_others(s: Seq<RoutingEntry>, destination: ObjectId)
    ensures
        forall|j: int|
            0 <= j < s.len() && s[j].destination != destination ==> exists|a: int|
                0 <= a < routes_kept(s, destination).len() && routes_kept(s, destination)[a]
                    == #[trigger] s[j],
    decreases s.len(),
{
    if s.len() > 0 {
        let d = s.drop_last();
        lemma_kept_keeps_others(d, destination);
        let rest = routes_kept(d, destination);
        let kept = routes_kept(s, destination);
        assert forall|j: int| 0 <= j < s.len() && s[j].destination != destination implies exists|
            a: int,
        | 0 <= a < kept.len() && kept[a] == #[trigger] s[j] by {
            if j < s.len() - 1 {
                assert(d[j] == s[j]);
                let a = choose|a: int| 0 <= a < rest.len() && rest[a] == d[j];
                assert(kept[a] == rest[a]);
            } else {
                assert(kept[kept.len() - 1] == s[j]);
            }
        }
    }
}

// ── Laws ───────────────────────────────────────────────────────────

/// A route added to a well-formed table takes the badges of its range
/// and leaves every other badge routed as before.
pub proof fn law_added_route_is_found(
    s: Seq<RoutingEntry>,
    low: u64,
    high: u64,
    destination: ObjectId,
    generation: u64,
    badge: u64,
)
    requires
        sorted_disjoint(s),
        !overlaps_neighbour(s, insert_position(s, low) as int, low, high),
    ensures
        ({
            let t = s.insert(insert_position(s, low) as int, new_entry(low, high, destination, generation));
            &&& sorted_disjoint(t)
            &&& low <= badge <= high ==> route_of(t, badge) == Some(destination)
            &&& !(low <= badge <= high) ==> route_of(t, badge) == route_of(s, badge)
        }),
{
    let k = insert_position(s, low) as int;
    let e = new_entry(low, high, destination, generation);
    let t = s.insert(k, e);
    lemma_insert_position_bounds(s, low);
    lemma_insert_keeps_sorted_disjoint(s, k, e);
    s.insert_ensures(k, e);
    if low <= badge <= high {
        assert(covers(t[k], badge));
        let c = choose|i: int| 0 <= i < t.len() && covers(#[trigger] t[i], badge);
        lemma_unique_cover(t, badge, c, k);
    } else {
        if exists|i: int| 0 <= i < s.len() && covers(#[trigger] s[i], badge) {
            let cs = choose|i: int| 0 <= i < s.len() && covers(#[trigger] s[i], badge);
            let ct = if cs < k {
                cs
            } else {
                cs + 1
            };
            assert(t[ct] == s[cs]);
            let c = choose|i: int| 0 <= i < t.len() && covers(#[trigger] t[i], badge);
            lemma_unique_cover(t, badge, c, ct);
        } else {
            assert forall|i: int| 0 <= i < t.len() implies !covers(#[trigger] t[i], badge) by {
                if i < k {
                    assert(t[i] == s[i]);
                } else if i > k {
                    assert(t[i] == s[i - 1]);
                }
            }
        }
    }
}

/// Removing the routes to a destination unroutes exactly the badges that
/// went to it; every other badge is routed as before.
pub proof fn law_removed_routes_are_gone(s: Seq<RoutingEntry>, destination: ObjectId, badge: u64)
    requires
        sorted_disjoint(s),
    ensures
        route_of(routes_kept(s, destination), badge) == (if route_of(s, badge) == Some(destination) {
            None
        } else {
            route_of(s, badge)
        }),
{
    let kept = routes_kept(s, destination);
    if exists|a: int| 0 <= a < kept.len() && covers(#[trigger] kept[a], badge) {
        let a = choose|a: int| 0 <= a < kept.len() && covers(#[trigger] kept[a], badge);
        lemma_kept_sorted_disjoint(s, destination);
        lemma_kept_are_listed(s, destination);
        lemma_kept_destinations(s, destination);
        let j = choose|j: int| 0 <= j < s.len() && #[trigger] kept[a] == s[j];
        assert(covers(s[j], badge));
        let c = choose|i: int| 0 <= i < s.len() && covers(#[trigger] s[i], badge);
        lemma_unique_cover(s, badge, c, j);
        let ck = choose|i: int| 0 <= i < kept.len() && covers(#[trigger] kept[i], badge);
        lemma_unique_cover(kept, badge, ck, a);
    } else if exists|i: int| 0 <= i < s.len() && covers(#[trigger] s[i], badge) {
        let c = choose|i: int| 0 <= i < s.len() && covers(#[trigger] s[i], badge);
        if s[c].destination != destination {
            lemma_kept_keeps_others(s, destination);
            let a = choose|a: int| 0 <= a < kept.len() && kept[a] == #[trigger] s[c];
            assert(covers(kept[a], badge));
        }
    }
}

/// No kept route goes to the removed destination.
proof fn lemma_kept_destinations(s: Seq<RoutingEntry>, destination: ObjectId)
    ensures
        forall|a: int|
            0 <= a < routes_kept(s, destination).len() ==> (#[trigger] routes_kept(
                s,
                destination,
            )[a]).destination != destination,
    decreases s.len(),
{
    if s.len() > 0 {
        let d = s.drop_last();
        lemma_kept_destinations(d, destination);
        let rest = routes_kept(d, destination);
        let kept = routes_kept(s, destination);
        assert forall|a: int| 0 <= a < kept.len() implies (#[trigger] kept[a]).destination
            != destination by {
            if a < rest.len() {
                assert(kept[a] == rest[a]);
            }
        }
    }
}

// ── Waiter lists ───────────────────────────────────────────────────

/// A Field's list of waiting Observers: a doubly linked list threaded
/// through a table of wait entries, whose `prev` and `next` links are
/// indices into that table.
///
/// The list's contents, oldest first, are its view; `head` and `tail` are
/// the first and last of them.
pub struct WaitList {
    pub head: Option<usize>,
    pub tail: Option<usize>,
    pub order: Ghost<Seq<usize>>,
}

impl View for WaitList {
    type V = Seq<usize>;

    open spec fn view(&self) -> Seq<usize> {
        self.order@
    }
}

/// The entry is linked into no list.
pub open spec fn unlinked(e: WaitEntry) -> bool {
    e.prev is None && e.next is None
}

/// `o` is laid out in `entries` as a doubly linked list from `head` to
/// `tail`: no index occurs twice, every index is in the table, and each
/// entry's links name its neighbours in `o`.
pub open spec fn threads(
    head: Option<usize>,
    tail: Option<usize>,
    entries: Seq<WaitEntry>,
    o: Seq<usize>,
) -> bool {
    &&& o.no_duplicates()
    &&& forall|i: int| 0 <= i < o.len() ==> #[trigger] o[i] < entries.len()
    &&& head == (if o.len() == 0 { None::<usize> } else { Some(o[0]) })
    &&& tail == (if o.len() == 0 { None::<usize> } else { Some(o.last()) })
    &&& forall|i: int|
        0 <= i < o.len() ==> #[trigger] entries[o[i] as int].prev == (if i == 0 {
            None::<usize>
        } else {
            Some(o[i - 1])
        })
    &&& forall|i: int|
        0 <= i < o.len() ==> #[trigger] entries[o[i] as int].next == (if i == o.len() - 1 {
            None::<usize>
        } else {
            Some(o[i + 1])
        })
}

impl WaitList {
    /// The list is well formed over the entry table.
    pub open spec fn wf(&self, entries: Seq<WaitEntry>) -> bool {
        threads(self.head, self.tail, entries, self@)
    }

    /// An empty list.
    pub fn new() -> (l: Self)
        ensures
            l@ == Seq::<usize>::empty(),
            l.head is None,
            l.tail is None,
    {
        WaitList { head: None, tail: None, order: Ghost(Seq::empty()) }
    }
}

/// An update of the entry table keeps every entry's Observer and Field,
/// and leaves alone every entry outside `o` other than `entry`.
pub open spec fn links_only(
    old_entries: Seq<WaitEntry>,
    new_entries: Seq<WaitEntry>,
    o: Seq<usize>,
    entry: usize,
) -> bool {
    &&& new_entries.len() == old_entries.len()
    &&& forall|x: int|
        0 <= x < old_entries.len() ==> (#[trigger] new_entries[x]).observer
            == old_entries[x].observer && new_entries[x].field == old_entries[x].field
    &&& forall|x: int|
        0 <= x < old_entries.len() && x != entry && !o.contains(x as usize)
            ==> #[trigger] new_entries[x] == old_entries[x]
}

/// Set the links of entry `index`.
fn set_links(entries: &mut Vec<WaitEntry>, index: usize, prev: Option<usize>, next: Option<usize>)
    requires
        index < old(entries).len(),
    ensures
        final(entries)@ == old(entries)@.update(
            index as int,
            WaitEntry { prev, next, ..old(entries)@[index as int] },
        ),
{
    let observer = entries[index].observer;
    let field = entries[index].field;
    entries.set(index, WaitEntry { observer, field, prev, next });
}

/// Observer of a wait entry.
pub fn waiter_observer(entries: &Vec<WaitEntry>, entry: usize) -> (observer: usize)
    requires
        entry < entries.len(),
    ensures
        observer == entries@[entry as int].observer,
{
    entries[entry].observer
}

/// Entry after a wait entry in its list.
pub fn waiter_next(entries: &Vec<WaitEntry>, entry: usize) -> (next: Option<usize>)
    requires
        entry < entries.len(),
    ensures
        next == entries@[entry as int].next,
{
    entries[entry].next
}

/// Append `entry` at the tail of the list (FIFO).
///
/// The entry's links are set to the old tail and nothing; an empty list
/// gets the entry as its only element.
pub fn waiter_push_back(list: &mut WaitList, entries: &mut Vec<WaitEntry>, entry: usize)
    requires
        old(list).wf(old(entries)@),
        entry < old(entries).len(),
        !old(list)@.contains(entry),
    ensures
        final(list).wf(final(entries)@),
        final(list)@ == old(list)@.push(entry),
        links_only(old(entries)@, final(entries)@, old(list)@, entry),
{
    let ghost o = list@;
    let ghost e0 = entries@;
    match list.tail {
        None => {
            set_links(entries, entry, None, None);
            list.head = Some(entry);
            list.tail = Some(entry);
        },
        Some(t) => {
            set_links(entries, entry, Some(t), None);
            let prev_of_t = entries[t].prev;
            set_links(entries, t, prev_of_t, Some(entry));
            list.tail = Some(entry);
        },
    }
    list.order = Ghost(o.push(entry));
    proof {
        let n = o.push(entry);
        assert forall|i: int| 0 <= i < n.len() implies #[trigger] entries@[n[i] as int].prev == (
        if i == 0 {
            None::<usize>
        } else {
            Some(n[i - 1])
        }) by {
            if i < o.len() {
                assert(n[i] == o[i]);
                assert(e0[o[i] as int].prev == (if i == 0 { None::<usize> } else { Some(o[i - 1]) }));
            }
        }
        assert forall|i: int| 0 <= i < n.len() implies #[trigger] entries@[n[i] as int].next == (
        if i == n.len() - 1 {
            None::<usize>
        } else {
            Some(n[i + 1])
        }) by {
            if i < o.len() {
                assert(n[i] == o[i]);
                assert(e0[o[i] as int].next == (if i == o.len() - 1 { None::<usize> } else { Some(o[i + 1]) }));
            }
        }
        assert forall|i: int| 0 <= i < n.len() implies #[trigger] n[i] < entries@.len() by {
            if i < o.len() {
                assert(o[i] < e0.len());
            }
        }
    }
}

/// Take the entry at the front of the list (the oldest), or `None` for an
/// empty list. The taken entry is left unlinked.
pub fn waiter_pop_front(list: &mut WaitList, entries: &mut Vec<WaitEntry>) -> (popped: Option<usize>)
    requires
        old(list).wf(old(entries)@),
    ensures
        final(list).wf(final(entries)@),
        popped == (if old(list)@.len() == 0 {
            None::<usize>
        } else {
            Some(old(list)@[0])
        }),
        final(list)@ == (if old(list)@.len() == 0 {
            old(list)@
        } else {
            old(list)@.drop_first()
        }),
        old(list)@.len() == 0 ==> final(entries)@ == old(entries)@,
        popped matches Some(e) ==> unlinked(final(entries)@[e as int]),
        links_only(old(entries)@, final(entries)@, old(list)@, old(list)@[0]),
{
    let ghost o = list@;
    let ghost e0 = entries@;
    let h = match list.head {
        None => return None,
        Some(h) => h,
    };
    proof {
        assert(o[0] < e0.len());
    }
    let next = entries[h].next;
    list.head = next;
    match next {
        Some(n) => {
            proof {
                assert(o[1] < e0.len());
            }
            let next_of_n = entries[n].next;
            set_links(entries, n, None, next_of_n);
        },
        None => {
            list.tail = None;
        },
    }
    set_links(entries, h, None, None);
    list.order = Ghost(o.drop_first());
    proof {
        let n = o.drop_first();
        assert forall|i: int| 0 <= i < n.len() implies #[trigger] entries@[n[i] as int].prev == (
        if i == 0 {
            None::<usize>
        } else {
            Some(n[i - 1])
        }) by {
            assert(n[i] == o[i + 1]);
            assert(e0[o[i + 1] as int].prev == Some(o[i]));
        }
        assert forall|i: int| 0 <= i < n.len() implies #[trigger] entries@[n[i] as int].next == (
        if i == n.len() - 1 {
            None::<usize>
        } else {
            Some(n[i + 1])
        }) by {
            assert(n[i] == o[i + 1]);
            assert(e0[o[i + 1] as int].next == (if i + 1 == o.len() - 1 {
                None::<usize>
            } else {
                Some(o[i + 2])
            }));
        }
        assert forall|i: int| 0 <= i < n.len() implies #[trigger] n[i] < entries@.len() by {
            assert(o[i + 1] < e0.len());
        }
        assert(n.no_duplicates()) by {
            assert forall|i: int, j: int| 0 <= i < n.len() && 0 <= j < n.len() && i != j implies n[i] != n[j] by {
                assert(n[i] == o[i + 1] && n[j] == o[j + 1]);
            }
        }
    }
    Some(h)
}

/// Unlink `entry` from the list, wherever it stands in it; its neighbours
/// are linked to each other and the head or tail moves past it. An entry
/// that is in no list is left as it is.
pub fn waiter_remove(list: &mut WaitList, entries: &mut Vec<WaitEntry>, entry: usize)
    requires
        old(list).wf(old(entries)@),
        entry < old(entries).len(),
        old(list)@.contains(entry) || unlinked(old(entries)@[entry as int]),
    ensures
        final(list).wf(final(entries)@),
        forall|k: int|
            0 <= k < old(list)@.len() && old(list)@[k] == entry ==> final(list)@ == old(
                list,
            )@.remove(k),
        !old(list)@.contains(entry) ==> final(list)@ == old(list)@ && final(entries)@ == old(
            entries,
        )@,
        unlinked(final(entries)@[entry as int]),
        links_only(old(entries)@, final(entries)@, old(list)@, entry),
{
    let ghost o = list@;
    let ghost e0 = entries@;
    let is_head = match list.head {
        Some(h) => h == entry,
        None => false,
    };
    let is_tail = match list.tail {
        Some(t) => t == entry,
        None => false,
    };
    let prev = entries[entry].prev;
    let next = entries[entry].next;
    if !is_head && !is_tail && prev.is_none() && next.is_none() {
        proof {
            if o.contains(entry) {
                let k = choose|k: int| 0 <= k < o.len() && o[k] == entry;
                assert(e0[o[k] as int].prev == (if k == 0 { None::<usize> } else { Some(o[k - 1]) }));
                assert(e0[o[k] as int].next == (if k == o.len() - 1 { None::<usize> } else { Some(o[k + 1]) }));
            }
        }
        return;
    }
    proof {
        if !o.contains(entry) {
            assert(o.len() > 0 ==> o[0] != entry);
            assert(o.len() > 0 ==> o[o.len() - 1] != entry);
        }
    }
    let ghost k = choose|k: int| 0 <= k < o.len() && o[k] == entry;
    proof {
        assert(o[k] == entry);
        assert(forall|j: int| 0 <= j < o.len() && o[j] == entry ==> j == k);
        assert(e0[o[k] as int].prev == (if k == 0 { None::<usize> } else { Some(o[k - 1]) }));
        assert(e0[o[k] as int].next == (if k == o.len() - 1 { None::<usize> } else { Some(o[k + 1]) }));
        assert(is_head == (k == 0));
        assert(is_tail == (k == o.len() - 1));
        if k > 0 {
            assert(o[k - 1] < e0.len());
        }
        if k < o.len() - 1 {
            assert(o[k + 1] < e0.len());
        }
    }
    match prev {
        Some(p) => {
            let prev_of_p = entries[p].prev;
            set_links(entries, p, prev_of_p, next);
        },
        None => {},
    }
    match next {
        Some(n) => {
            let next_of_n = entries[n].next;
            set_links(entries, n, prev, next_of_n);
        },
        None => {},
    }
    if is_head {
        list.head = next;
    }
    if is_tail {
        list.tail = prev;
    }
    set_links(entries, entry, None, None);
    list.order = Ghost(o.remove(k));
    proof {
        let n = o.remove(k);
        assert forall|i: int| 0 <= i < n.len() implies #[trigger] n[i] < entries@.len() by {
            if i < k {
                assert(n[i] == o[i]);
            } else {
                assert(n[i] == o[i + 1]);
            }
        }
        assert forall|i: int| 0 <= i < n.len() implies #[trigger] entries@[n[i] as int].prev == (
        if i == 0 {
            None::<usize>
        } else {
            Some(n[i - 1])
        }) by {
            if i < k {
                assert(n[i] == o[i]);
                assert(e0[o[i] as int].prev == (if i == 0 { None::<usize> } else { Some(o[i - 1]) }));
            } else {
                assert(n[i] == o[i + 1]);
                assert(e0[o[i + 1] as int].prev == Some(o[i]));
            }
        }
        assert forall|i: int| 0 <= i < n.len() implies #[trigger] entries@[n[i] as int].next == (
        if i == n.len() - 1 {
            None::<usize>
        } else {
            Some(n[i + 1])
        }) by {
            if i < k {
                assert(n[i] == o[i]);
                assert(e0[o[i] as int].next == Some(o[i + 1]));
            } else {
                assert(n[i] == o[i + 1]);
                assert(e0[o[i + 1] as int].next == (if i + 1 == o.len() - 1 {
                    None::<usize>
                } else {
                    Some(o[i + 2])
                }));
            }
        }
        assert(n.no_duplicates()) by {
            assert forall|i: int, j: int| 0 <= i < n.len() && 0 <= j < n.len() && i != j implies n[i] != n[j] by {
                let a = if i < k { i } else { i + 1 };
                let b = if j < k { j } else { j + 1 };
                assert(n[i] == o[a] && n[j] == o[b]);
            }
        }
        assert forall|kk: int| 0 <= kk < o.len() && o[kk] == entry implies kk == k by {}
    }
}

/// FIFO: appending an entry leaves the front of the list where it was (an
/// empty list's front becomes the new entry), and taking the front then
/// leaves the rest of the old list followed by the new entry.
pub proof fn law_waiters_fifo(o: Seq<usize>, e: usize)
    ensures
        o.push(e)[0] == (if o.len() == 0 {
            e
        } else {
            o[0]
        }),
        o.push(e).drop_first() =~= (if o.len() == 0 {
            o
        } else {
            o.drop_first().push(e)
        }),
{
}

/// Removing the entry that was just appended restores the list.
pub proof fn law_push_then_remove_restores(o: Seq<usize>, e: usize)
    ensures
        o.push(e).remove(o.len() as int) =~= o,
{
}

// ── Message queues ─────────────────────────────────────────────────

/// Store `message` in slot `index` of a Field's circular queue of
/// `capacity` slots. The caller has computed the circular index and
/// checked that the queue is not full.
pub fn queue_write<M>(queue: &mut Vec<M>, capacity: u32, index: u32, message: M)
    requires
        old(queue).len() == capacity,
        index < capacity,
    ensures
        final(queue)@ == old(queue)@.update(index as int, message),
{
    queue.set(index as usize, message);
}

/// The message in slot `index` of a Field's circular queue of `capacity`
/// slots. The caller has checked that the queue is not empty and advances
/// its head past the slot.
pub fn queue_read<M: Copy>(queue: &Vec<M>, capacity: u32, index: u32) -> (message: Option<M>)
    requires
        queue.len() == capacity,
        index < capacity,
    ensures
        message == Some(queue@[index as int]),
{
    Some(queue[index as usize])
}

/// Queue storage for a new Field: `capacity` slots, each holding `empty`,
/// or `None` for a zero capacity.
pub fn allocate_field_queue<M: Copy>(capacity: u32, empty: M) -> (queue: Option<Vec<M>>)
    ensures
        queue is None <==> capacity == 0,
        queue matches Some(q) ==> q@ =~= Seq::new(capacity as nat, |_i: int| empty),
{
    if capacity == 0 {
        return None;
    }
    let mut q: Vec<M> = Vec::new();
    let mut i: u32 = 0;
    while i < capacity
        invariant
            i <= capacity,
            q@ =~= Seq::new(i as nat, |_i: int| empty),
        decreases capacity - i,
    {
        q.push(empty);
        i = i + 1;
    }
    Some(q)
}

/// A read of a queue slot gives back what the last write to it stored,
/// and a write leaves every other slot as it was.
pub proof fn law_queue_read_after_write<M>(q: Seq<M>, index: int, other: int, message: M)
    requires
        0 <= index < q.len(),
        0 <= other < q.len(),
        other != index,
    ensures
        q.update(index, message)[index] == message,
        q.update(index, message)[other] == q[other],
{
}

} // verus!
