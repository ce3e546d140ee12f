//! Space manager: physical memory allocation and VA assignment.
//!
//! One logical Space manager for the system. It retains all unallocated
//! physical memory as the kernel-internal root pool, hands out pages for
//! new Spaces and arena slab pages, takes pages back, assigns each new
//! Space its VA base, and computes the page-table overhead that a type
//! conversion charges to the parent Space.
//!
//! Conservation: total physical memory = root pool + all allocated Spaces
//! + kernel metadata overhead. Pages change membership, never quantity.

use crate::arena::AllocError;
use vstd::prelude::*;

verus! {

// ── Root pool ──────────────────────────────────────────────────────

/// The kernel's root physical memory pool.
///
/// All unallocated physical memory starts here. Space creation draws from
/// this pool; object destruction and freed slab pages return here.
pub struct RootPool {
    /// Total physical memory available at boot, in bytes.
    pub total_bytes: usize,
    /// Currently unallocated bytes in the pool.
    pub free_bytes: usize,
    /// Page size discovered at boot.
    pub page_size: usize,
}

// ── VA assignment ──────────────────────────────────────────────────

/// VA assignment outcome for a new Space.
///
/// The kernel assigns a VA base per Space; all holders see the same VA.
pub struct VaAssignment {
    /// Kernel-assigned virtual address base for the new Space.
    pub va_base: usize,
}

// ── Space creation result ──────────────────────────────────────────

/// Outcome of a successful Space creation (type conversion).
///
/// The caller populates the L3 table, constructs the Space in an arena
/// slot, and shrinks the parent Space by size + overhead.
pub struct SpaceCreationResult {
    /// VA base for the new Space.
    pub va_base: usize,
    /// Rounded size in bytes (page-aligned).
    pub size: usize,
    /// Physical address of the Space's content pages.
    pub content_pa: usize,
    /// Physical address of the L3 table(s) for this Space.
    pub l3_table_pa: usize,
    /// Number of content pages allocated.
    pub page_count: usize,
}

// ── SpaceManager ───────────────────────────────────────────────────

/// The kernel's single Space management interface.
///
/// Owns the root pool, handles VA assignment, and mediates type
/// conversion.
pub struct SpaceManager {
    pub root_pool: RootPool,
    /// Bump allocator cursor for physical page allocation.
    /// Initialized to page_size to avoid returning address 0.
    pub next_physical_base: usize,
    /// Bump allocator cursor for VA assignment.
    /// Initialized to page_size to avoid returning address 0.
    pub next_va_base: usize,
}

// ── Specification model ────────────────────────────────────────────

/// `x + y`, clamped to `usize::MAX`.
pub open spec fn sat_add(x: int, y: int) -> int {
    if x + y > usize::MAX {
        usize::MAX as int
    } else {
        x + y
    }
}

/// `x * y`, clamped to `usize::MAX`.
pub open spec fn sat_mul(x: int, y: int) -> int {
    if x * y > usize::MAX {
        usize::MAX as int
    } else {
        x * y
    }
}

/// `x` rounded up with the power-of-two-minus-one `mask`: the low bits of
/// `x + mask` selected by `mask` cleared.
pub open spec fn round_up_mask(x: usize, mask: usize) -> usize {
    ((x + mask) as usize) & !mask
}

/// `n` is a power of two.
pub open spec fn is_power_of_two(n: usize) -> bool {
    n > 0 && n & ((n - 1) as usize) == 0
}

/// Bytes covered by `count` pages of `sm`'s page size.
pub open spec fn page_bytes(sm: SpaceManager, count: int) -> int {
    count * sm.root_pool.page_size
}

/// An allocation of `count` pages, if the pool covers it, does not run the
/// physical cursor past the end of the address space.
pub open spec fn allocation_fits(sm: SpaceManager, count: int) -> bool {
    page_bytes(sm, count) <= sm.root_pool.free_bytes ==> sm.next_physical_base + page_bytes(
        sm,
        count,
    ) <= usize::MAX
}

/// `sm` with its pool's free byte count replaced.
pub open spec fn with_free_bytes(sm: SpaceManager, free_bytes: int) -> SpaceManager {
    SpaceManager { root_pool: RootPool { free_bytes: free_bytes as usize, ..sm.root_pool }, ..sm }
}

/// Result of [`SpaceManager::allocate_pages`].
pub open spec fn allocate_result(sm: SpaceManager, count: int) -> Result<usize, AllocError> {
    if count == 0 {
        Ok(sm.next_physical_base)
    } else if page_bytes(sm, count) > sm.root_pool.free_bytes {
        Err(AllocError::OutOfMemory)
    } else {
        Ok(sm.next_physical_base)
    }
}

/// State after [`SpaceManager::allocate_pages`].
pub open spec fn after_allocate(sm: SpaceManager, count: int) -> SpaceManager {
    if count == 0 || page_bytes(sm, count) > sm.root_pool.free_bytes {
        sm
    } else {
        SpaceManager {
            next_physical_base: (sm.next_physical_base + page_bytes(sm, count)) as usize,
            ..with_free_bytes(sm, sm.root_pool.free_bytes - page_bytes(sm, count))
        }
    }
}

/// Free byte count after returning `bytes` to a pool: saturating add,
/// clamped to the pool total.
pub open spec fn free_after_return(free_bytes: int, total_bytes: int, bytes: int) -> int {
    let sum = sat_add(free_bytes, bytes);
    if sum < total_bytes {
        sum
    } else {
        total_bytes
    }
}

/// State after [`SpaceManager::return_pages`].
pub open spec fn after_return(sm: SpaceManager, count: int) -> SpaceManager {
    if count == 0 {
        sm
    } else {
        with_free_bytes(
            sm,
            free_after_return(
                sm.root_pool.free_bytes as int,
                sm.root_pool.total_bytes as int,
                page_bytes(sm, count),
            ),
        )
    }
}

/// Alignment that [`SpaceManager::assign_va`] uses: the requested one, or
/// the page size for 0.
pub open spec fn effective_alignment(sm: SpaceManager, alignment: usize) -> usize {
    if alignment == 0 {
        sm.root_pool.page_size
    } else {
        alignment
    }
}

/// VA bytes a request of `size` consumes: the page-rounded size, or one
/// page for a zero-size request.
pub open spec fn va_consumed(sm: SpaceManager, size: usize) -> usize {
    let aligned = round_up_mask(size, (sm.root_pool.page_size - 1) as usize);
    if aligned == 0 {
        sm.root_pool.page_size
    } else {
        aligned
    }
}

/// The VA base the cursor rounds up to.
pub open spec fn va_candidate(sm: SpaceManager, alignment: usize) -> usize {
    round_up_mask(sm.next_va_base, (effective_alignment(sm, alignment) - 1) as usize)
}

/// End of the VA budget: one page past the physical memory size.
pub open spec fn va_limit(sm: SpaceManager) -> int {
    sat_add(sm.root_pool.page_size as int, sm.root_pool.total_bytes as int)
}

/// A VA assignment of `size` bytes with `alignment` succeeds.
pub open spec fn va_assignable(sm: SpaceManager, size: usize, alignment: usize) -> bool {
    &&& size + (sm.root_pool.page_size - 1) <= usize::MAX
    &&& sm.next_va_base + (effective_alignment(sm, alignment) - 1) <= usize::MAX
    &&& va_candidate(sm, alignment) + va_consumed(sm, size) <= va_limit(sm)
}

/// Number of L3 tables covering `page_count` pages: one per
/// `page_size / 8` pages, rounded up (saturating on the count).
pub open spec fn l3_tables_for(page_size: int, page_count: int) -> int {
    sat_add(page_count, page_size / 8 - 1) / (page_size / 8)
}

/// Page-table overhead charged to a type conversion of `space_size` bytes.
pub open spec fn conversion_overhead(page_size: int, space_size: int) -> int {
    if space_size == 0 {
        0
    } else {
        sat_mul(l3_tables_for(page_size, sat_add(space_size, page_size - 1) / page_size), page_size)
    }
}

/// Size of the Space that [`SpaceManager::create_space`] creates.
pub open spec fn created_size(sm: SpaceManager, size: usize) -> usize {
    va_consumed(sm, size)
}

/// The content and L3-table allocations of a Space creation stay inside
/// the address space wherever the pool covers them.
pub open spec fn creation_fits(sm: SpaceManager, size: usize) -> bool {
    size + (sm.root_pool.page_size - 1) <= usize::MAX ==> {
        let page_count = created_size(sm, size) / sm.root_pool.page_size;
        let tables = l3_tables_for(sm.root_pool.page_size as int, page_count as int);
        &&& allocation_fits(sm, page_count as int)
        &&& allocate_result(sm, page_count as int) is Ok ==> allocation_fits(
            after_allocate(sm, page_count as int),
            tables,
        )
    }
}

/// Result of [`SpaceManager::create_space`].
pub open spec fn creation_result(sm: SpaceManager, size: usize, alignment: usize) -> Result<
    SpaceCreationResult,
    AllocError,
> {
    let ps = sm.root_pool.page_size;
    let eff = created_size(sm, size);
    let page_count = eff / ps;
    let tables = l3_tables_for(ps as int, page_count as int);
    let s1 = after_allocate(sm, page_count as int);
    let s2 = after_allocate(s1, tables);
    if size + (ps - 1) > usize::MAX {
        Err(AllocError::OutOfMemory)
    } else if allocate_result(sm, page_count as int) is Err || allocate_result(s1, tables) is Err
        || !va_assignable(s2, eff, alignment) {
        Err(AllocError::OutOfMemory)
    } else {
        Ok(
            SpaceCreationResult {
                va_base: va_candidate(s2, alignment),
                size: eff,
                content_pa: sm.next_physical_base,
                l3_table_pa: s1.next_physical_base,
                page_count: page_count as usize,
            },
        )
    }
}

/// State after [`SpaceManager::create_space`]: on success both
/// allocations stand and the VA cursor moved; on failure nothing is
/// consumed: every allocation made so far was returned to the pool and
/// the physical cursor is back where it was.
pub open spec fn after_creation(sm: SpaceManager, size: usize, alignment: usize) -> SpaceManager {
    let ps = sm.root_pool.page_size;
    let eff = created_size(sm, size);
    let page_count = eff / ps;
    let tables = l3_tables_for(ps as int, page_count as int);
    let s1 = after_allocate(sm, page_count as int);
    let s2 = after_allocate(s1, tables);
    if size + (ps - 1) > usize::MAX || allocate_result(sm, page_count as int) is Err {
        sm
    } else if allocate_result(s1, tables) is Err {
        SpaceManager {
            next_physical_base: sm.next_physical_base,
            ..after_return(s2, page_count as int)
        }
    } else if !va_assignable(s2, eff, alignment) {
        SpaceManager {
            next_physical_base: sm.next_physical_base,
            ..after_return(after_return(s2, page_count as int), tables)
        }
    } else {
        SpaceManager {
            next_va_base: (va_candidate(s2, alignment) + va_consumed(s2, eff)) as usize,
            ..s2
        }
    }
}

// ── Laws ───────────────────────────────────────────────────────────

/// Conservation: allocating pages and returning the same number restores
/// the pool's free byte count (for a pool that holds no more than its
/// total).
pub proof fn law_allocate_then_return_restores_pool(sm: SpaceManager, count: int)
    requires
        count >= 0,
        sm.root_pool.free_bytes <= sm.root_pool.total_bytes,
        allocate_result(sm, count) is Ok,
    ensures
        after_return(after_allocate(sm, count), count).root_pool == sm.root_pool,
{
}

/// The pool's free byte count never exceeds its total: allocation only
/// lowers it and a return is clamped to the total.
pub proof fn law_free_bytes_bounded_by_total(sm: SpaceManager, count: int)
    requires
        count >= 0,
        sm.root_pool.free_bytes <= sm.root_pool.total_bytes,
    ensures
        after_allocate(sm, count).root_pool.free_bytes <= after_allocate(
            sm,
            count,
        ).root_pool.total_bytes,
        after_return(sm, count).root_pool.free_bytes <= after_return(
            sm,
            count,
        ).root_pool.total_bytes,
        after_allocate(sm, count).root_pool.total_bytes == sm.root_pool.total_bytes,
        after_return(sm, count).root_pool.total_bytes == sm.root_pool.total_bytes,
{
    if count > 0 {
        assert(page_bytes(sm, count) >= 0) by (nonlinear_arith)
            requires
                count >= 0,
                sm.root_pool.page_size >= 0,
        ;
    }
}

/// A Space creation that fails consumes nothing: the manager is left as it
/// was, pool and cursors alike (for a pool that holds no more than its
/// total).
pub proof fn law_failed_creation_restores_pool(sm: SpaceManager, size: usize, alignment: usize)
    requires
        sm.root_pool.page_size >= 8,
        sm.root_pool.free_bytes <= sm.root_pool.total_bytes,
        creation_result(sm, size, alignment) is Err,
    ensures
        after_creation(sm, size, alignment) == sm,
{
    let ps = sm.root_pool.page_size;
    let eff = created_size(sm, size);
    let page_count = eff / ps;
    let tables = l3_tables_for(ps as int, page_count as int);
    let s1 = after_allocate(sm, page_count as int);
    if size + (ps - 1) <= usize::MAX && allocate_result(sm, page_count as int) is Ok {
        assert(page_count as int * ps >= 0) by (nonlinear_arith)
            requires
                page_count >= 0,
                ps >= 0,
        ;
        if allocate_result(s1, tables) is Ok {
            assert(tables >= 0) by (nonlinear_arith)
                requires
                    tables == sat_add(page_count as int, ps / 8 - 1) / (ps as int / 8),
                    ps >= 8,
            ;
            assert(tables * ps >= 0) by (nonlinear_arith)
                requires
                    tables >= 0,
                    ps >= 0,
            ;
        }
    }
}

/// A value whose bits below a power of two are clear is a multiple of it.
proof fn lemma_mask_clear_divisible(r: usize, ps: usize)
    requires
        is_power_of_two(ps),
        r & ((ps - 1) as usize) == 0,
    ensures
        r % ps == 0,
    decreases ps,
{
    if ps > 1 {
        let m = (ps - 1) as usize;
        let h = ps >> 1usize;
        let rh = r >> 1usize;
        assert(h & ((h - 1) as usize) == 0 && h > 0 && ps == 2 * h && r == 2 * rh
            && rh & ((h - 1) as usize) == 0) by (bit_vector)
            requires
                ps > 1usize,
                ps & m == 0usize,
                m == ps - 1usize,
                r & m == 0usize,
                h == ps >> 1usize,
                rh == r >> 1usize,
        ;
        lemma_mask_clear_divisible(rh, h);
        vstd::arithmetic::div_mod::lemma_fundamental_div_mod(rh as int, h as int);
        let q = rh as int / h as int;
        assert(r == ps * q) by (nonlinear_arith)
            requires
                r == 2 * rh,
                rh == h * q,
                ps == 2 * h,
        ;
        vstd::arithmetic::div_mod::lemma_mod_multiples_basic(q, ps as int);
        assert(q * ps == ps * q) by (nonlinear_arith);
    }
}

/// A successful Space creation takes from the pool exactly the Space's
/// size plus its type-conversion overhead, and leaves the pool total alone:
/// pages change hands, the pool never loses track of any.
pub proof fn law_creation_charges_size_plus_overhead(sm: SpaceManager, size: usize, alignment: usize)
    requires
        sm.root_pool.page_size >= 8,
        is_power_of_two(sm.root_pool.page_size),
        creation_result(sm, size, alignment) is Ok,
    ensures
        ({
            let c = creation_result(sm, size, alignment)->Ok_0;
            let after = after_creation(sm, size, alignment);
            &&& after.root_pool.total_bytes == sm.root_pool.total_bytes
            &&& after.root_pool.free_bytes + c.size + conversion_overhead(
                sm.root_pool.page_size as int,
                c.size as int,
            ) == sm.root_pool.free_bytes
        }),
{
    let ps = sm.root_pool.page_size;
    let eff = created_size(sm, size);
    let pc = eff / ps;
    let tables = l3_tables_for(ps as int, pc as int);
    let s1 = after_allocate(sm, pc as int);
    law_round_up_to_power_of_two(size, ps);
    let m = (ps - 1) as usize;
    let r = round_up_mask(size, m);
    lemma_mask_clear_divisible(r, ps);
    if r == 0 {
        assert(ps % ps == 0) by (nonlinear_arith)
            requires
                ps > 0,
        ;
    }
    assert(eff % ps == 0);
    assert(eff >= ps) by (nonlinear_arith)
        requires
            eff % ps == 0,
            eff > 0,
            ps > 0,
    ;
    assert(pc * ps == eff) by (nonlinear_arith)
        requires
            pc == eff / ps,
            eff % ps == 0,
            ps > 0,
    ;
    assert(pc >= 1) by (nonlinear_arith)
        requires
            pc == eff / ps,
            eff >= ps,
            ps > 0,
    ;
    assert(tables >= 1) by (nonlinear_arith)
        requires
            tables == sat_add(pc as int, ps / 8 - 1) / (ps as int / 8),
            pc >= 1,
            ps >= 8,
            sat_add(pc as int, ps / 8 - 1) >= pc,
    ;
    assert(tables * ps >= ps) by (nonlinear_arith)
        requires
            tables >= 1,
            ps >= 0,
    ;
    assert(eff + ps - 1 <= usize::MAX);
    assert((eff + ps - 1) / (ps as int) == pc) by (nonlinear_arith)
        requires
            pc * ps == eff,
            ps > 0,
    ;
}

/// Rounding up to a power-of-two alignment gives the smallest multiple of
/// the alignment that is at least `x`.
pub proof fn law_round_up_to_power_of_two(x: usize, align: usize)
    requires
        is_power_of_two(align),
        x + (align - 1) <= usize::MAX,
    ensures
        round_up_mask(x, (align - 1) as usize) >= x,
        round_up_mask(x, (align - 1) as usize) < x + align,
        round_up_mask(x, (align - 1) as usize) & ((align - 1) as usize) == 0,
{
    let m = (align - 1) as usize;
    let y = (x + m) as usize;
    assert(y & !m >= x && y & !m <= y && (y & !m) & m == 0usize) by (bit_vector)
        requires
            align > 0usize,
            align & m == 0usize,
            m == align - 1usize,
            y == x + m,
    ;
}

/// VA assignments never overlap: a successful assignment starts at or
/// after the cursor and moves the cursor past its own end, so the next
/// assignment starts after it.
pub proof fn law_va_assignments_are_disjoint(sm: SpaceManager, size: usize, alignment: usize)
    requires
        sm.root_pool.page_size >= 1,
        is_power_of_two(effective_alignment(sm, alignment)),
        va_assignable(sm, size, alignment),
    ensures
        va_candidate(sm, alignment) >= sm.next_va_base,
        va_candidate(sm, alignment) & ((effective_alignment(sm, alignment) - 1) as usize) == 0,
        va_consumed(sm, size) >= 1,
        va_candidate(sm, alignment) + va_consumed(sm, size) > va_candidate(sm, alignment),
{
    law_round_up_to_power_of_two(sm.next_va_base, effective_alignment(sm, alignment));
}

/// The conversion overhead is non-decreasing in the Space size.
pub proof fn law_overhead_monotonic(page_size: int, small: int, large: int)
    requires
        page_size >= 8,
        0 <= small <= large,
    ensures
        conversion_overhead(page_size, small) <= conversion_overhead(page_size, large),
{
    if small > 0 {
        let pc_s = sat_add(small, page_size - 1) / page_size;
        let pc_l = sat_add(large, page_size - 1) / page_size;
        vstd::arithmetic::div_mod::lemma_div_is_ordered(
            sat_add(small, page_size - 1),
            sat_add(large, page_size - 1),
            page_size,
        );
        let e = page_size / 8;
        assert(e >= 1);
        vstd::arithmetic::div_mod::lemma_div_is_ordered(
            sat_add(pc_s, e - 1),
            sat_add(pc_l, e - 1),
            e,
        );
        let t_s = l3_tables_for(page_size, pc_s);
        let t_l = l3_tables_for(page_size, pc_l);
        vstd::arithmetic::mul::lemma_mul_inequality(t_s, t_l, page_size);
    } else {
        let pc_l = sat_add(large, page_size - 1) / page_size;
        assert(pc_l >= 0) by (nonlinear_arith)
            requires
                pc_l == sat_add(large, page_size - 1) / page_size,
                large >= 0,
                page_size >= 8,
        ;
        let t_l = l3_tables_for(page_size, pc_l);
        assert(t_l >= 0) by (nonlinear_arith)
            requires
                t_l == sat_add(pc_l, page_size / 8 - 1) / (page_size / 8),
                pc_l >= 0,
                page_size >= 8,
        ;
        assert(t_l * page_size >= 0) by (nonlinear_arith)
            requires
                t_l >= 0,
                page_size >= 8,
        ;
    }
}

/// Unless it saturates, the conversion overhead is a whole number of
/// pages.
pub proof fn law_overhead_is_whole_pages(page_size: int, space_size: int)
    requires
        page_size >= 8,
        space_size >= 0,
        conversion_overhead(page_size, space_size) < usize::MAX,
    ensures
        conversion_overhead(page_size, space_size) % page_size == 0,
{
    if space_size > 0 {
        let pc = sat_add(space_size, page_size - 1) / page_size;
        let t = l3_tables_for(page_size, pc);
        assert(conversion_overhead(page_size, space_size) == sat_mul(t, page_size));
        assert(sat_mul(t, page_size) == t * page_size);
        vstd::arithmetic::div_mod::lemma_mod_multiples_basic(t, page_size);
    } else {
        vstd::arithmetic::div_mod::lemma_mod_multiples_basic(0, page_size);
    }
}

impl SpaceManager {
    /// Allocate pages from the root pool for a new Space or arena slab.
    ///
    /// Draws from unallocated physical memory by bumping the physical
    /// cursor. A zero-page request returns the cursor and changes nothing;
    /// a request the pool cannot cover fails with `OutOfMemory` and changes
    /// nothing.
    pub fn allocate_pages(&mut self, count: usize) -> (r: Result<usize, AllocError>)
        requires
            allocation_fits(*old(self), count as int),
        ensures
            r == allocate_result(*old(self), count as int),
            *final(self) == after_allocate(*old(self), count as int),
    {
        if count == 0 {
            return Ok(self.next_physical_base);
        }
        let bytes_needed = match count.checked_mul(self.root_pool.page_size) {
            Some(b) => b,
            None => return Err(AllocError::OutOfMemory),
        };

        if bytes_needed > self.root_pool.free_bytes {
            return Err(AllocError::OutOfMemory);
        }

        self.root_pool.free_bytes -= bytes_needed;

        let base = self.next_physical_base;

        self.next_physical_base += bytes_needed;

        Ok(base)
    }

    /// Return pages to the root pool.
    ///
    /// The pool's free byte count grows by `count * page_size`, saturating
    /// and never above the pool total. The byte count must fit in a
    /// `usize`.
    pub fn return_pages(&mut self, _base: usize, count: usize)
        requires
            page_bytes(*old(self), count as int) <= usize::MAX,
        ensures
            *final(self) == after_return(*old(self), count as int),
    {
        if count == 0 {
            return;
        }

        let bytes_returned = count * self.root_pool.page_size;
        let sum = self.root_pool.free_bytes.saturating_add(bytes_returned);

        self.root_pool.free_bytes = if sum < self.root_pool.total_bytes {
            sum
        } else {
            self.root_pool.total_bytes
        };
    }

    /// Assign a VA base for a new Space.
    ///
    /// The cursor is rounded up to `alignment` (the page size when 0, which
    /// must then be a power of two as any non-zero alignment must be); the
    /// request's size is rounded up to whole pages, a zero size taking one
    /// page. Fails with `OutOfMemory` when a rounding overflows or the
    /// assignment would end past the VA budget (page size + physical
    /// memory size); the cursor moves only on success.
    pub fn assign_va(&mut self, size: usize, alignment: usize) -> (r: Result<
        VaAssignment,
        AllocError,
    >)
        requires
            old(self).root_pool.page_size >= 1,
            is_power_of_two(effective_alignment(*old(self), alignment)),
        ensures
            va_assignable(*old(self), size, alignment) <==> r is Ok,
            r matches Ok(a) ==> {
                &&& a.va_base == va_candidate(*old(self), alignment)
                &&& *final(self) == (SpaceManager {
                    next_va_base: (a.va_base + va_consumed(*old(self), size)) as usize,
                    ..*old(self)
                })
            },
            r matches Err(e) ==> e == AllocError::OutOfMemory && *final(self) == *old(self),
    {
        let page_size = self.root_pool.page_size;
        let effective_alignment = if alignment == 0 {
            page_size
        } else {
            alignment
        };
        let align_mask = effective_alignment - 1;
        let page_mask = page_size - 1;
        // Round up to page boundary; overflow means the request is impossibly large.
        let aligned_size = match size.checked_add(page_mask) {
            Some(s) => s & !page_mask,
            None => return Err(AllocError::OutOfMemory),
        };
        // A zero-size request still consumes one page of VA space.
        let consume = if aligned_size == 0 {
            page_size
        } else {
            aligned_size
        };
        // Round up the cursor to the requested alignment.
        let aligned_cursor = match self.next_va_base.checked_add(align_mask) {
            Some(c) => c & !align_mask,
            None => return Err(AllocError::OutOfMemory),
        };
        // VA budget: physical memory size, starting from page_size.
        let va_limit = page_size.saturating_add(self.root_pool.total_bytes);
        let next = match aligned_cursor.checked_add(consume) {
            Some(n) => n,
            None => return Err(AllocError::OutOfMemory),
        };

        if next > va_limit {
            return Err(AllocError::OutOfMemory);
        }

        self.next_va_base = next;

        Ok(VaAssignment { va_base: aligned_cursor })
    }

    /// Number of L3 tables needed for `page_count` pages: one L3 table per
    /// `page_size / 8` pages (2048 for a 16 KiB granule), rounded up.
    fn l3_table_count(&self, page_count: usize) -> (n: usize)
        requires
            self.root_pool.page_size >= 8,
        ensures
            n == l3_tables_for(self.root_pool.page_size as int, page_count as int),
    {
        let entries_per_table = self.root_pool.page_size / 8;

        page_count.saturating_add(entries_per_table - 1) / entries_per_table
    }

    /// Compute the overhead of type conversion for a given Space size.
    ///
    /// At split time the parent shrinks by `child_size + overhead`. Only
    /// L3 tables are charged to the Space; L1/L2 tables are per-Observer
    /// costs charged elsewhere.
    ///
    /// Formula: `ceil(page_count / entries_per_table) * page_size`, with
    /// saturating arithmetic; 0 for a zero-size Space.
    pub fn type_conversion_overhead(&self, space_size: usize) -> (overhead: usize)
        requires
            self.root_pool.page_size >= 8,
        ensures
            overhead == conversion_overhead(self.root_pool.page_size as int, space_size as int),
    {
        if space_size == 0 {
            return 0;
        }

        let page_size = self.root_pool.page_size;
        let page_count = space_size.saturating_add(page_size - 1) / page_size;
        let tables = self.l3_table_count(page_count);

        match tables.checked_mul(page_size) {
            Some(bytes) => bytes,
            None => usize::MAX,
        }
    }

    /// Orchestrate Space creation (type conversion).
    ///
    /// Rounds the size up to whole pages (one page for a zero size),
    /// allocates the content pages, then the L3 table page(s), then assigns
    /// a VA base. On failure nothing is consumed: every allocation made so
    /// far goes back to the pool and the physical cursor is rewound; the
    /// error is `OutOfMemory`.
    pub fn create_space(&mut self, size: usize, alignment: usize) -> (r: Result<
        SpaceCreationResult,
        AllocError,
    >)
        requires
            old(self).root_pool.page_size >= 8,
            is_power_of_two(effective_alignment(*old(self), alignment)),
            creation_fits(*old(self), size),
        ensures
            r == creation_result(*old(self), size, alignment),
            *final(self) == after_creation(*old(self), size, alignment),
    {
        let page_size = self.root_pool.page_size;
        let page_mask = page_size - 1;

        // Round up to page boundary.
        let rounded_size = match size.checked_add(page_mask) {
            Some(s) => s & !page_mask,
            None => return Err(AllocError::OutOfMemory),
        };
        // A zero-size request rounds to one page (minimum Space size).
        let effective_size = if rounded_size == 0 {
            page_size
        } else {
            rounded_size
        };

        let page_count = effective_size / page_size;
        let l3_table_count = self.l3_table_count(page_count);
        let ghost s0 = *self;

        let content_pa = match self.allocate_pages(page_count) {
            Ok(pa) => pa,
            Err(e) => return Err(e),
        };
        let ghost s1 = *self;
        proof {
            assert(page_count * page_size <= s0.root_pool.free_bytes) by (nonlinear_arith)
                requires
                    page_count == 0 || page_count * page_size <= s0.root_pool.free_bytes,
            ;
        }

        let l3_table_pa = match self.allocate_pages(l3_table_count) {
            Ok(pa) => pa,
            Err(e) => {
                self.return_pages(content_pa, page_count);
                self.next_physical_base = content_pa;
                return Err(e);
            },
        };
        proof {
            assert(l3_table_count * page_size <= s1.root_pool.free_bytes) by (nonlinear_arith)
                requires
                    l3_table_count == 0 || l3_table_count * page_size <= s1.root_pool.free_bytes,
            ;
        }

        let va_assignment = match self.assign_va(effective_size, alignment) {
            Ok(va) => va,
            Err(e) => {
                self.return_pages(content_pa, page_count);
                self.return_pages(l3_table_pa, l3_table_count);
                self.next_physical_base = content_pa;
                return Err(e);
            },
        };

        Ok(
            SpaceCreationResult {
                va_base: va_assignment.va_base,
                size: effective_size,
                content_pa,
                l3_table_pa,
                page_count,
            },
        )
    }
}

/// The VA budget is the physical memory size: a VA assignment succeeds
/// exactly when neither rounding overflows and the rounded-up base plus
/// the consumed size ends at most one page past the pool's total size
/// (clamped to the address space), however much of the pool is free.
pub proof fn law_va_budget_is_total_memory(sm: SpaceManager, size: usize, alignment: usize)
    ensures
        va_assignable(sm, size, alignment) <==> {
            &&& size + (sm.root_pool.page_size - 1) <= usize::MAX
            &&& sm.next_va_base + (effective_alignment(sm, alignment) - 1) <= usize::MAX
            &&& va_candidate(sm, alignment) + va_consumed(sm, size) <= (if sm.root_pool.page_size
                + sm.root_pool.total_bytes <= usize::MAX {
                sm.root_pool.page_size + sm.root_pool.total_bytes
            } else {
                usize::MAX as int
            })
        },
{
}

/// Whether a VA assignment succeeds, and the base it gives, do not depend
/// on the pool's free byte count: two managers that differ only in it
/// assign the same VA range.
pub proof fn law_va_assignment_ignores_free_bytes(
    sm: SpaceManager,
    free_bytes: usize,
    size: usize,
    alignment: usize,
)
    ensures
        va_assignable(with_free_bytes(sm, free_bytes as int), size, alignment)
            == va_assignable(sm, size, alignment),
        va_candidate(with_free_bytes(sm, free_bytes as int), alignment) == va_candidate(
            sm,
            alignment,
        ),
        va_consumed(with_free_bytes(sm, free_bytes as int), size) == va_consumed(sm, size),
{
}

} // verus!
