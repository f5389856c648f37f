//! Pages and the one range of addresses that is mapped on demand.

use vstd::prelude::*;

verus! {

/// The number of low address bits that select a byte within a page.
pub const PAGE_SHIFT: usize = 12;

/// The size of a page in bytes.
pub const PAGE_SIZE: usize = 4096;

/// The address of the first byte of the page that holds `addr`.
pub open spec fn page_of(addr: int) -> int {
    addr - addr % 4096
}

/// Whether `addr` is the first byte of a page.
pub open spec fn page_aligned(addr: int) -> bool {
    addr % 4096 == 0
}

/// Rounds an address down to the start of its page by clearing its low
/// twelve bits.
pub fn page_base(addr: usize) -> (base: usize)
    ensures
        base == page_of(addr as int),
        page_aligned(base as int),
        base <= addr < base + PAGE_SIZE,
{
    let base = (addr >> PAGE_SHIFT) << PAGE_SHIFT;
    assert(((addr >> 12usize) << 12usize) == addr - addr % 4096) by (bit_vector);
    base
}

/// A range of virtual addresses that has been set aside and not yet mapped.
#[derive(Clone, Copy, Debug, PartialEq, Eq, Structural)]
pub struct MemoryRegion {
    /// The address of the first byte.
    pub base: usize,
    /// The length in bytes.
    pub size: usize,
}

impl MemoryRegion {
    /// A region as the fault controller expects it: it starts on a page
    /// boundary, is made of whole pages and ends within the address space.
    pub open spec fn wf(self) -> bool {
        &&& page_aligned(self.base as int)
        &&& page_aligned(self.size as int)
        &&& self.base + self.size <= usize::MAX
    }

    /// Whether the byte at `addr` belongs to the region.
    pub open spec fn holds(self, addr: int) -> bool {
        self.base <= addr < self.base + self.size
    }

    /// Whether the page that starts at `page` counts as part of the
    /// region: its first byte lies at or after the base, less than `size`
    /// bytes away.
    pub open spec fn admits(self, page: int) -> bool {
        self.base <= page && page - self.base < self.size
    }

    /// Checks that the region is well formed.
    pub fn is_well_formed(&self) -> (ok: bool)
        ensures
            ok == self.wf(),
    {
        self.base % PAGE_SIZE == 0 && self.size % PAGE_SIZE == 0 && self.size <= usize::MAX
            - self.base
    }

    /// The bounds check that tells an expected fault from a genuine invalid
    /// access. `page` is the faulting address rounded down to its page.
    pub fn covers(&self, page: usize) -> (inside: bool)
        ensures
            inside == self.admits(page as int),
    {
        !(self.base > page || page - self.base >= self.size)
    }
}

/// In a well-formed region a byte belongs to the region exactly when its
/// page is admitted by the bounds check, and an admitted page lies wholly
/// inside the region.
pub proof fn region_is_made_of_whole_pages(region: MemoryRegion, addr: int)
    requires
        region.wf(),
    ensures
        region.holds(addr) <==> region.admits(page_of(addr)),
        region.admits(page_of(addr)) ==> region.base <= page_of(addr) && page_of(addr) + 4096
            <= region.base + region.size,
{
}

} // verus!
