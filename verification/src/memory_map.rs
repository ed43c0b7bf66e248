//! The boot-time memory map: an ordered list of physical memory regions.

use vstd::prelude::*;

verus! {

/// Size of one physical page (frame) in bytes.
pub const PAGE_SIZE: usize = 0x1000;

/// Number of pages at the bottom of memory that belong to the firmware (2 MiB).
pub const LOW_MEMORY_PAGES: usize = 512;

/// A contiguous range of physical memory: `length` bytes starting at `base`.
#[derive(Clone, Copy, Debug, PartialEq, Eq, Structural)]
pub struct MemoryData {
    pub base: usize,
    pub length: usize,
}

/// One region of the memory map, tagged with what the memory may be used for.
#[derive(Clone, Copy, Debug, PartialEq, Eq, Structural)]
pub enum MemoryEntry {
    /// Free memory that the kernel may hand out.
    Usable(MemoryData),
    /// Memory that must never be touched.
    Reserved(MemoryData),
    /// Memory that holds boot loader data; it counts as installed memory but is not handed out.
    BootLoaderReclaimable(MemoryData),
}

impl MemoryData {
    /// The address just past the region.
    pub open spec fn end(self) -> int {
        self.base + self.length
    }

    /// Whether page `p` lies wholly inside the region.
    pub open spec fn holds_page(self, p: int) -> bool {
        self.base <= p * 4096 && (p + 1) * 4096 <= self.end()
    }
}

impl MemoryEntry {
    /// The address range of the region, whatever its kind.
    pub open spec fn data(self) -> MemoryData {
        match self {
            MemoryEntry::Usable(d) => d,
            MemoryEntry::Reserved(d) => d,
            MemoryEntry::BootLoaderReclaimable(d) => d,
        }
    }

    /// The address range of the region, whatever its kind.
    pub fn data_of(&self) -> (d: MemoryData)
        ensures
            d == self.data(),
    {
        match self {
            MemoryEntry::Usable(d) => *d,
            MemoryEntry::Reserved(d) => *d,
            MemoryEntry::BootLoaderReclaimable(d) => *d,
        }
    }

    /// Whether the region is free memory.
    pub open spec fn is_usable(self) -> bool {
        self is Usable
    }

    /// Whether the region counts as installed memory when sizing the bitmap.
    pub open spec fn is_installed(self) -> bool {
        self is Usable || self is BootLoaderReclaimable
    }
}

/// Whether the end of every installed region is an address the machine can express.
pub open spec fn addressable(mmap: Seq<MemoryEntry>) -> bool {
    forall|j: int|
        0 <= j < mmap.len() && (#[trigger] mmap[j]).is_installed() ==> mmap[j].data().end()
            <= usize::MAX
}

/// The highest address just past any installed region, or 0 if there is none.
pub open spec fn highest_address(mmap: Seq<MemoryEntry>) -> int
    decreases mmap.len(),
{
    if mmap.len() == 0 {
        0
    } else {
        let rest = highest_address(mmap.drop_last());
        let last = mmap.last();
        if last.is_installed() && last.data().end() > rest {
            last.data().end()
        } else {
            rest
        }
    }
}

/// Number of whole pages below the highest installed address.
pub open spec fn page_count(mmap: Seq<MemoryEntry>) -> int {
    highest_address(mmap) / 4096
}

/// Bytes of storage that a bitmap with one bit per page needs, in whole 64-bit words.
pub open spec fn bitmap_bytes(pages: int) -> int {
    ((pages + 63) / 64) * 8
}

/// Whether region `j` is free memory large enough to hold `size` bytes.
pub open spec fn can_host(mmap: Seq<MemoryEntry>, j: int, size: int) -> bool {
    0 <= j < mmap.len() && mmap[j].is_usable() && mmap[j].data().length >= size
}

/// The first region at or after index `from` that can hold `size` bytes.
pub open spec fn first_host(mmap: Seq<MemoryEntry>, size: int, from: int) -> Option<int>
    decreases mmap.len() - from,
{
    if from < 0 || from >= mmap.len() {
        None
    } else if can_host(mmap, from, size) {
        Some(from)
    } else {
        first_host(mmap, size, from + 1)
    }
}

/// The region that hosts the bitmap: the first free region large enough for it.
pub open spec fn bitmap_host(mmap: Seq<MemoryEntry>) -> Option<int> {
    first_host(mmap, bitmap_bytes(page_count(mmap)), 0)
}

/// Whether region `j` is free memory that holds page `p` wholly.
pub open spec fn region_frees(mmap: Seq<MemoryEntry>, j: int, p: int) -> bool {
    0 <= j < mmap.len() && mmap[j].is_usable() && mmap[j].data().holds_page(p)
}

/// Whether some free region among the first `n` holds page `p` wholly.
pub open spec fn freed_by_prefix(mmap: Seq<MemoryEntry>, n: int, p: int) -> bool {
    exists|j: int| j < n && #[trigger] region_frees(mmap, j, p)
}

/// Whether page `p` shares at least one byte with the bitmap's own storage.
pub open spec fn holds_bitmap(mmap: Seq<MemoryEntry>, p: int) -> bool {
    match bitmap_host(mmap) {
        Some(h) => {
            let start = mmap[h].data().base as int;
            let size = bitmap_bytes(page_count(mmap));
            start < (p + 1) * 4096 && p * 4096 < start + size
        },
        None => false,
    }
}

/// Whether page `p` is unavailable right after construction: it is firmware
/// memory, it stores the bitmap, or no free region holds it wholly.
pub open spec fn initially_used(mmap: Seq<MemoryEntry>, p: int) -> bool {
    p < 512 || holds_bitmap(mmap, p) || !freed_by_prefix(mmap, mmap.len() as int, p)
}

/// The highest installed address is never negative.
pub proof fn lemma_highest_nonnegative(mmap: Seq<MemoryEntry>)
    ensures
        0 <= highest_address(mmap),
    decreases mmap.len(),
{
    if mmap.len() > 0 {
        lemma_highest_nonnegative(mmap.drop_last());
    }
}

/// The highest address is at least the end of every installed region.
pub proof fn lemma_highest_address_bounds(mmap: Seq<MemoryEntry>, j: int)
    requires
        0 <= j < mmap.len(),
        mmap[j].is_installed(),
    ensures
        mmap[j].data().end() <= highest_address(mmap),
    decreases mmap.len(),
{
    if j < mmap.len() - 1 {
        lemma_highest_address_bounds(mmap.drop_last(), j);
    }
}

/// The highest address is 0 or the end of some installed region.
pub proof fn lemma_highest_address_attained(mmap: Seq<MemoryEntry>)
    ensures
        highest_address(mmap) == 0 || exists|j: int|
            0 <= j < mmap.len() && (#[trigger] mmap[j]).is_installed() && mmap[j].data().end()
                == highest_address(mmap),
    decreases mmap.len(),
{
    if mmap.len() > 0 {
        let rest = mmap.drop_last();
        lemma_highest_address_attained(rest);
        let last = mmap.last();
        if last.is_installed() && last.data().end() > highest_address(rest) {
        } else if highest_address(rest) != 0 {
            let j = choose|j: int|
                0 <= j < rest.len() && (#[trigger] rest[j]).is_installed() && rest[j].data().end()
                    == highest_address(rest);
        }
    }
}

/// What `first_host` returns is the least index that can host, if there is one.
pub proof fn lemma_first_host(mmap: Seq<MemoryEntry>, size: int, from: int)
    requires
        0 <= from,
    ensures
        match first_host(mmap, size, from) {
            Some(h) => from <= h && can_host(mmap, h, size) && forall|j: int|
                from <= j < h ==> !can_host(mmap, j, size),
            None => forall|j: int| from <= j ==> !can_host(mmap, j, size),
        },
    decreases mmap.len() - from,
{
    if from < mmap.len() && !can_host(mmap, from, size) {
        lemma_first_host(mmap, size, from + 1);
    }
}

} // verus!
