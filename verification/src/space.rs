//! Space: kernel-managed memory object.
//!
//! A Space is a variable-size, capability-designated claim on memory. Its
//! page size is exposed (minimum Space size = one page); holders access it
//! through (cap, offset) pairs and the kernel assigns its VA base, the same
//! for every holder. Merge (two → one) and split (one → two) change Space
//! boundaries; byte inputs are rounded up to the page size internally. A
//! generation counter supports revocation.

use crate::space_manager::round_up_mask;
use core::sync::atomic::AtomicU64;
use vstd::prelude::*;

verus! {

/// A claim to a portion of the system's bounded memory resource.
///
/// Each Space has a kernel-assigned VA base, stable for the Space's
/// lifetime. Physical backing and page table subtrees are kernel-internal
/// concerns.
pub struct Space {
    /// Kernel-assigned virtual address base, stable for all holders.
    pub va_base: usize,

    /// Size in bytes, page-aligned.
    pub size: usize,

    /// Number of capability references to this Space.
    pub refcount: u32,

    /// Physical address of the Space's content pages. Set at creation,
    /// immutable thereafter; needed for reclamation on destroy.
    pub content_pa: u64,

    /// Physical address of the L3 page table for this Space (one L3 table
    /// per 32 MiB of content with a 16 KiB granule). Set at creation and
    /// immutable: split gives the child its own L3 table and leaves the
    /// parent's alone.
    pub l3_table_pa: u64,

    /// Revocation generation counter. Bumped atomically on explicit
    /// revocation; capability entries store the value at creation, and
    /// hot-path capability checks may read it without the arena lock.
    pub generation: AtomicU64,
}

impl Default for Space {
    /// An empty Space record: every field zero, as a freshly zeroed arena
    /// slot holds it before the creator fills it in.
    fn default() -> (space: Space)
        ensures
            space.va_base == 0,
            space.size == 0,
            space.refcount == 0,
            space.content_pa == 0,
            space.l3_table_pa == 0,
    {
        Space { va_base: 0, size: 0, refcount: 0, content_pa: 0, l3_table_pa: 0, generation: AtomicU64::new(0) }
    }
}

// ── Error types ────────────────────────────────────────────────────

/// Errors from Space topology operations.
#[derive(Clone, Copy, Debug, PartialEq, Eq, Structural)]
pub enum SpaceError {
    /// A zero-size Space is meaningless.
    ZeroSize,
    /// Split requests more bytes than this Space contains minus one page —
    /// a Space cannot be emptied; destroy is the way to eliminate it.
    InsufficientSpace,
    /// Merge requires the source to start where the target ends.
    NotAdjacent,
}

/// Bytes a split of `size` bytes moves out: `size` rounded up to the page
/// size.
pub open spec fn split_bytes(size: usize, page_size: usize) -> usize {
    round_up_mask(size, (page_size - 1) as usize)
}

// ── Space methods ──────────────────────────────────────────────────

impl Space {
    /// Split this Space, extracting `size` bytes into a new Space.
    ///
    /// `size` is rounded up to `page_size`. The extracted bytes come off
    /// the top of this Space's VA range: this Space keeps its base and
    /// shrinks; the new Space starts where the shrunk one ends. Returns
    /// `(new_va_base, rounded_size)`. Fails with `ZeroSize` when the
    /// rounded size is 0 and with `InsufficientSpace` when it would leave
    /// nothing behind; on failure nothing changes.
    ///
    /// The rounding `size + (page_size - 1)` must fit in a `usize`, and on
    /// success so must this Space's end address.
    pub fn split(&mut self, size: usize, page_size: usize) -> (r: Result<(usize, usize), SpaceError>)
        requires
            page_size >= 1,
            size + (page_size - 1) <= usize::MAX,
            split_bytes(size, page_size) != 0 && split_bytes(size, page_size) < old(self).size
                ==> old(self).va_base + old(self).size <= usize::MAX,
        ensures
            split_bytes(size, page_size) == 0 ==> r == Err::<(usize, usize), SpaceError>(
                SpaceError::ZeroSize,
            ) && *final(self) == *old(self),
            split_bytes(size, page_size) != 0 && split_bytes(size, page_size) >= old(self).size
                ==> r == Err::<(usize, usize), SpaceError>(SpaceError::InsufficientSpace)
                && *final(self) == *old(self),
            split_bytes(size, page_size) != 0 && split_bytes(size, page_size) < old(self).size
                ==> {
                &&& r == Ok::<(usize, usize), SpaceError>(
                    (
                        (old(self).va_base + old(self).size - split_bytes(size, page_size)) as usize,
                        split_bytes(size, page_size),
                    ),
                )
                &&& *final(self) == (Space {
                    size: (old(self).size - split_bytes(size, page_size)) as usize,
                    ..*old(self)
                })
            },
    {
        let rounded = (size + (page_size - 1)) & !(page_size - 1);

        if rounded == 0 {
            return Err(SpaceError::ZeroSize);
        }
        if rounded >= self.size {
            return Err(SpaceError::InsufficientSpace);
        }

        let new_va = self.va_base + self.size - rounded;

        self.size -= rounded;

        Ok((new_va, rounded))
    }

    /// Merge a source Space into this Space.
    ///
    /// The source must start exactly where this Space ends; this Space's
    /// range then extends upward from its stable base by the source's size.
    /// Fails with `NotAdjacent` (changing nothing) otherwise.
    ///
    /// This Space's end address must fit in a `usize`, and so must the
    /// merged size.
    pub fn merge(&mut self, source: &Space) -> (r: Result<(), SpaceError>)
        requires
            old(self).va_base + old(self).size <= usize::MAX,
            source.va_base == old(self).va_base + old(self).size ==> old(self).size + source.size
                <= usize::MAX,
        ensures
            source.va_base != old(self).va_base + old(self).size ==> r == Err::<(), SpaceError>(
                SpaceError::NotAdjacent,
            ) && *final(self) == *old(self),
            source.va_base == old(self).va_base + old(self).size ==> r == Ok::<(), SpaceError>(())
                && *final(self) == (Space {
                size: (old(self).size + source.size) as usize,
                ..*old(self)
            }),
    {
        let expected_va = self.va_base + self.size;

        if source.va_base != expected_va {
            return Err(SpaceError::NotAdjacent);
        }

        self.size += source.size;

        Ok(())
    }

    /// Check whether a byte offset falls within this Space.
    pub fn contains_offset(&self, offset: usize) -> (b: bool)
        ensures
            b == (offset < self.size),
    {
        offset < self.size
    }

    /// Number of pages backing this Space.
    pub fn page_count(&self, page_size: usize) -> (n: usize)
        requires
            page_size > 0,
        ensures
            n == self.size / page_size,
    {
        self.size / page_size
    }
}

/// Splitting off part of a Space and merging it back restores the
/// original size: the split-off part starts exactly where the shrunk
/// Space ends, and the two sizes add up to the original.
pub proof fn law_split_then_merge_restores(va_base: usize, size: usize, request: usize, page_size: usize)
    requires
        page_size >= 1,
        request + (page_size - 1) <= usize::MAX,
        va_base + size <= usize::MAX,
        split_bytes(request, page_size) != 0,
        split_bytes(request, page_size) < size,
    ensures
        (va_base + size - split_bytes(request, page_size)) == va_base + (size - split_bytes(
            request,
            page_size,
        )),
        (size - split_bytes(request, page_size)) + split_bytes(request, page_size) == size,
        size - split_bytes(request, page_size) > 0,
{
}

/// With a power-of-two page size, a split moves a whole number of pages:
/// the smallest page multiple that covers the request.
pub proof fn law_split_moves_whole_pages(request: usize, page_size: usize)
    requires
        crate::space_manager::is_power_of_two(page_size),
        request + (page_size - 1) <= usize::MAX,
    ensures
        split_bytes(request, page_size) >= request,
        split_bytes(request, page_size) < request + page_size,
        split_bytes(request, page_size) & ((page_size - 1) as usize) == 0,
{
    crate::space_manager::law_round_up_to_power_of_two(request, page_size);
}

} // verus!
