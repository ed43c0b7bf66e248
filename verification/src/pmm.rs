//! The physical frame allocator: one bit per 4096-byte page, scanned from a
//! cursor that remembers where the last allocation ended.

use crate::bitmap::{bit_at, bit_reset, bit_set, bit_test, lemma_full_word};
use crate::frame_model::{
    count_free, lemma_first_fit, lemma_first_fit_is, lemma_first_fit_none, set_range,
    AllocatorState,
};
use crate::memory_map::{
    addressable, bitmap_host, first_host, freed_by_prefix, highest_address, initially_used,
    lemma_first_host, lemma_highest_address_bounds, page_count, region_frees, MemoryData,
    MemoryEntry, LOW_MEMORY_PAGES, PAGE_SIZE,
};
use vstd::prelude::*;

verus! {

/// Why the allocator refused a request.
#[derive(Clone, Copy, Debug, PartialEq, Eq, Structural)]
pub enum PmmError {
    /// An installed region of the memory map ends beyond the highest address of the machine.
    RegionOverflow,
    /// No free region of the memory map is large enough to store the bitmap.
    NoBitmapHost,
    /// The address given back is not the start of a page.
    Misaligned,
    /// The pages given back do not all lie below the highest page.
    OutOfRange,
    /// One of the pages given back is not handed out at the moment: it is
    /// free already, or it was never available.
    NotAllocated,
}

/// A bitmap allocator of physical pages.
#[derive(Debug)]
pub struct BitmapAllocator {
    bitmap: Vec<u64>,
    reserved: Vec<u64>,
    highest_page: usize,
    last_index: usize,
}

/// The state of an allocator freshly built for the memory map `mmap`: one
/// entry per whole page below the highest installed address; a page is free
/// exactly if some free region holds it wholly, it stores no part of the
/// bitmap and it lies above the firmware's low memory. What is unavailable
/// then is reserved for good. The cursor stands at page 0.
pub open spec fn initial_state(mmap: Seq<MemoryEntry>) -> AllocatorState {
    AllocatorState {
        highest_page: highest_address(mmap),
        used: Seq::new(page_count(mmap) as nat, |p: int| initially_used(mmap, p)),
        reserved: Seq::new(page_count(mmap) as nat, |p: int| initially_used(mmap, p)),
        cursor: 0,
    }
}

/// Computes the highest installed address, or finds that a region ends
/// beyond what the machine can address.
fn installed_top(mmap: &[MemoryEntry]) -> (r: Option<usize>)
    ensures
        match r {
            Some(top) => addressable(mmap@) && top == highest_address(mmap@),
            None => !addressable(mmap@),
        },
{
    let mut highest: usize = 0;
    let mut j: usize = 0;
    while j < mmap.len()
        invariant
            j <= mmap.len(),
            highest == highest_address(mmap@.take(j as int)),
            addressable(mmap@.take(j as int)),
        decreases mmap.len() - j,
    {
        let entry: MemoryEntry = mmap[j];
        proof {
            assert(mmap@.take(j + 1).drop_last() =~= mmap@.take(j as int));
        }
        match entry {
            MemoryEntry::Usable(v) | MemoryEntry::BootLoaderReclaimable(v) => {
                if v.length > usize::MAX - v.base {
                    return None;
                }
                let top: usize = v.base + v.length;
                if top > highest {
                    highest = top;
                }
            },
            _ => {},
        }
        j += 1;
    }
    proof {
        assert(mmap@.take(mmap.len() as int) =~= mmap@);
    }
    Some(highest)
}

/// Finds the first free region that is at least `size` bytes long.
fn find_host(mmap: &[MemoryEntry], size: usize) -> (r: Option<usize>)
    ensures
        match r {
            Some(h) => first_host(mmap@, size as int, 0) == Some(h as int),
            None => first_host(mmap@, size as int, 0) is None,
        },
{
    let mut j: usize = 0;
    while j < mmap.len()
        invariant
            j <= mmap.len(),
            first_host(mmap@, size as int, 0) == first_host(mmap@, size as int, j as int),
        decreases mmap.len() - j,
    {
        if let MemoryEntry::Usable(v) = mmap[j] {
            if v.length >= size {
                return Some(j);
            }
        }
        j += 1;
    }
    None
}

/// A bitmap of `words` words with every bit set.
fn full_bitmap(words: usize) -> (bitmap: Vec<u64>)
    ensures
        bitmap.len() == words,
        forall|p: int| 0 <= p < words * 64 ==> #[trigger] bit_at(bitmap@, p),
{
    let mut bitmap: Vec<u64> = Vec::new();
    let mut k: usize = 0;
    while k < words
        invariant
            k <= words,
            bitmap.len() == k,
            forall|w: int| 0 <= w < k ==> bitmap@[w] == !0u64,
        decreases words - k,
    {
        bitmap.push(!0u64);
        k += 1;
    }
    proof {
        assert forall|p: int| 0 <= p < words * 64 implies #[trigger] bit_at(bitmap@, p) by {
            lemma_full_word(p % 64);
        }
    }
    bitmap
}

/// Sets the bits `from..to` of the bitmap.
fn set_bits(bitmap: &mut Vec<u64>, from: usize, to: usize)
    requires
        to <= old(bitmap).len() * 64,
    ensures
        final(bitmap).len() == old(bitmap).len(),
        forall|j: int|
            0 <= j < old(bitmap).len() * 64 ==> #[trigger] bit_at(final(bitmap)@, j) == (from <= j
                < to || bit_at(old(bitmap)@, j)),
{
    let mut i: usize = from;
    while i < to
        invariant
            to <= bitmap.len() * 64,
            from <= i,
            i <= to || i == from,
            bitmap.len() == old(bitmap).len(),
            forall|j: int|
                0 <= j < bitmap.len() * 64 ==> #[trigger] bit_at(bitmap@, j) == (from <= j < i
                    || bit_at(old(bitmap)@, j)),
        decreases to - i,
    {
        bit_set(bitmap, i);
        i += 1;
    }
}

/// Clears the bits `from..to` of the bitmap.
fn clear_bits(bitmap: &mut Vec<u64>, from: usize, to: usize)
    requires
        to <= old(bitmap).len() * 64,
    ensures
        final(bitmap).len() == old(bitmap).len(),
        forall|j: int|
            0 <= j < old(bitmap).len() * 64 ==> #[trigger] bit_at(final(bitmap)@, j) == (!(from
                <= j < to) && bit_at(old(bitmap)@, j)),
{
    let mut i: usize = from;
    while i < to
        invariant
            to <= bitmap.len() * 64,
            from <= i,
            i <= to || i == from,
            bitmap.len() == old(bitmap).len(),
            forall|j: int|
                0 <= j < bitmap.len() * 64 ==> #[trigger] bit_at(bitmap@, j) == (!(from <= j < i)
                    && bit_at(old(bitmap)@, j)),
        decreases to - i,
    {
        bit_reset(bitmap, i);
        i += 1;
    }
}

/// Copies a bitmap word by word.
fn copy_bitmap(bitmap: &Vec<u64>) -> (copy: Vec<u64>)
    ensures
        copy@ == bitmap@,
{
    let mut copy: Vec<u64> = Vec::new();
    let mut k: usize = 0;
    while k < bitmap.len()
        invariant
            k <= bitmap.len(),
            copy@ == bitmap@.take(k as int),
        decreases bitmap.len() - k,
    {
        copy.push(bitmap[k]);
        k += 1;
    }
    copy
}

/// A free region frees a page exactly if the page lies between the first
/// page that starts inside the region and the last that ends inside it.
proof fn lemma_pages_of_region(d: MemoryData, p: int)
    requires
        d.end() <= usize::MAX,
    ensures
        d.holds_page(p) == ((d.base + 4095) / 4096 <= p < d.end() / 4096),
{
}

impl View for BitmapAllocator {
    type V = AllocatorState;

    closed spec fn view(&self) -> AllocatorState {
        AllocatorState {
            highest_page: self.highest_page as int,
            used: Seq::new((self.highest_page / 4096) as nat, |p: int| bit_at(self.bitmap@, p)),
            reserved: Seq::new(
                (self.highest_page / 4096) as nat,
                |p: int| bit_at(self.reserved@, p),
            ),
            cursor: self.last_index as int,
        }
    }
}

impl BitmapAllocator {
    /// Both bitmaps have a bit for every page, and the state they stand
    /// for satisfies the invariant of the model.
    #[verifier::type_invariant]
    spec fn inv(&self) -> bool {
        &&& self.bitmap.len() == self.reserved.len()
        &&& self.highest_page / 4096 <= self.bitmap.len() * 64
        &&& self@.wf()
    }

    /// Builds the allocator for the memory map `mmap`.
    ///
    /// The bitmap covers every whole page below the highest address of a free
    /// or boot-loader region. It is stored at the start of the first free
    /// region that is large enough for it. A page starts out free if some
    /// free region holds it wholly, except the pages that store the bitmap
    /// and the first 512 pages, which belong to the firmware.
    ///
    /// Fails with `RegionOverflow` if a free or boot-loader region ends
    /// beyond the highest address of the machine, else with `NoBitmapHost` if
    /// no free region can store the bitmap.
    pub fn new(mmap: &[MemoryEntry]) -> (r: Result<BitmapAllocator, PmmError>)
        ensures
            match r {
                Ok(a) => {
                    &&& addressable(mmap@)
                    &&& bitmap_host(mmap@) is Some
                    &&& a@ == initial_state(mmap@)
                    &&& a@.wf()
                },
                Err(e) => e == if !addressable(mmap@) {
                    PmmError::RegionOverflow
                } else {
                    PmmError::NoBitmapHost
                } && (!addressable(mmap@) || bitmap_host(mmap@) is None),
            },
    {
        let highest_page: usize = match installed_top(mmap) {
            Some(top) => top,
            None => {
                return Err(PmmError::RegionOverflow);
            },
        };
        let pages: usize = highest_page / PAGE_SIZE;
        let words: usize = pages / 64 + if pages % 64 != 0 {
            1usize
        } else {
            0usize
        };
        let bitmap_sz: usize = words * 8;
        let host: usize = match find_host(mmap, bitmap_sz) {
            Some(h) => h,
            None => {
                return Err(PmmError::NoBitmapHost);
            },
        };
        proof {
            lemma_first_host(mmap@, bitmap_sz as int, 0);
        }
        let mut bitmap: Vec<u64> = full_bitmap(words);

        let mut j: usize = 0;
        while j < mmap.len()
            invariant
                j <= mmap.len(),
                addressable(mmap@),
                highest_page == highest_address(mmap@),
                pages == highest_page / 4096,
                bitmap.len() == words,
                pages <= words * 64,
                forall|p: int|
                    0 <= p < pages ==> #[trigger] bit_at(bitmap@, p) == !freed_by_prefix(
                        mmap@,
                        j as int,
                        p,
                    ),
            decreases mmap.len() - j,
        {
            if let MemoryEntry::Usable(v) = mmap[j] {
                proof {
                    lemma_highest_address_bounds(mmap@, j as int);
                }
                let first: usize = v.base / PAGE_SIZE + if v.base % PAGE_SIZE != 0 {
                    1usize
                } else {
                    0usize
                };
                let end: usize = (v.base + v.length) / PAGE_SIZE;
                clear_bits(&mut bitmap, first, end);
                proof {
                    assert forall|p: int| 0 <= p < pages implies #[trigger] bit_at(bitmap@, p)
                        == !freed_by_prefix(mmap@, j + 1, p) by {
                        lemma_pages_of_region(v, p);
                        lemma_freed_by_next(mmap@, j as int, p);
                    }
                }
            }
            j += 1;
        }

        let start: usize = mmap[host].data_of().base;
        let stop: usize = start + bitmap_sz;
        let first_own: usize = start / PAGE_SIZE;
        let past_own: usize = stop / PAGE_SIZE + if stop % PAGE_SIZE != 0 {
            1usize
        } else {
            0usize
        };
        let last_own: usize = if past_own < pages {
            past_own
        } else {
            pages
        };
        set_bits(&mut bitmap, first_own, last_own);
        let low: usize = if LOW_MEMORY_PAGES < pages {
            LOW_MEMORY_PAGES
        } else {
            pages
        };
        set_bits(&mut bitmap, 0, low);
        let reserved: Vec<u64> = copy_bitmap(&bitmap);
        let allocator = BitmapAllocator { bitmap, reserved, highest_page, last_index: 0 };
        Ok(allocator)
    }

    /// The highest installed address that the allocator was built for.
    pub fn highest_page(&self) -> (top: usize)
        ensures
            top == self@.highest_page,
            self@.wf(),
    {
        proof {
            use_type_invariant(self);
        }
        self.highest_page
    }

    /// Number of pages that the allocator manages: the whole pages below
    /// the highest installed address.
    pub fn page_count(&self) -> (pages: usize)
        ensures
            pages == self@.pages(),
            pages * 4096 <= usize::MAX,
            self@.wf(),
    {
        proof {
            use_type_invariant(self);
        }
        self.highest_page / PAGE_SIZE
    }

    /// The page at which the next scan starts.
    pub fn cursor(&self) -> (page: usize)
        ensures
            page == self@.cursor,
            self@.wf(),
    {
        proof {
            use_type_invariant(self);
        }
        self.last_index
    }

    /// Whether page `page` is in use or unavailable. Pages beyond the last one are unavailable.
    pub fn is_used(&self, page: usize) -> (used: bool)
        ensures
            used == !self@.is_free(page as int),
    {
        proof {
            use_type_invariant(self);
        }
        if page < self.highest_page / PAGE_SIZE {
            bit_test(&self.bitmap, page)
        } else {
            true
        }
    }

    /// Marks page `page` as used.
    fn set_page(&mut self, page: usize)
        requires
            page < old(self)@.pages(),
        ensures
            final(self)@ == (AllocatorState {
                used: old(self)@.used.update(page as int, true),
                ..old(self)@
            }),
    {
        proof {
            use_type_invariant(&*self);
        }
        bit_set(&mut self.bitmap, page);
    }

    /// Marks page `page` as free. The page may not be a reserved one.
    fn clear_page(&mut self, page: usize)
        requires
            page < old(self)@.pages(),
            !old(self)@.reserved[page as int],
        ensures
            final(self)@ == (AllocatorState {
                used: old(self)@.used.update(page as int, false),
                ..old(self)@
            }),
    {
        proof {
            use_type_invariant(&*self);
        }
        bit_reset(&mut self.bitmap, page);
    }

    /// Scans from the cursor up to `limit` for `count` free pages in a row,
    /// counting free pages as it goes and starting over at every page in use.
    /// The first run found is marked as used and its address returned, with
    /// the cursor left just past it. Where there is none, the cursor ends at
    /// `limit` (or stays, if it was beyond) and nothing else changes.
    fn internal_alloc(&mut self, count: usize, limit: usize) -> (r: Option<usize>)
        requires
            limit <= old(self)@.pages(),
        ensures
            match old(self)@.first_fit(old(self)@.cursor, limit as int, count as int) {
                Some(p) => r == Some((p * 4096) as usize) && final(self)@ == old(self)@.take(
                    p,
                    count as int,
                ),
                None => r is None && final(self)@ == (AllocatorState {
                    cursor: if old(self)@.cursor < limit {
                        limit as int
                    } else {
                        old(self)@.cursor
                    },
                    ..old(self)@
                }),
            },
    {
        proof {
            use_type_invariant(&*self);
        }
        let ghost before = self@;
        let pages: usize = self.highest_page / PAGE_SIZE;
        let mut p: usize = 0;
        while self.last_index < limit
            invariant
                limit <= pages,
                pages == self.highest_page / 4096,
                self.inv(),
                before.wf(),
                before == old(self)@,
                self@.used == before.used,
                self@.reserved == before.reserved,
                self@.highest_page == before.highest_page,
                before.cursor <= self.last_index,
                self.last_index <= limit || self.last_index == before.cursor,
                p <= self.last_index - before.cursor,
                count > 0 ==> p < count,
                forall|i: int| self.last_index - p <= i < self.last_index ==> before.is_free(i),
                count > 0 ==> forall|t: int|
                    before.cursor <= t < self.last_index - p ==> !before.is_free_run(
                        t,
                        count as int,
                    ),
            decreases limit - self.last_index,
        {
            let ghost at = self.last_index as int;
            let set: bool = bit_test(&self.bitmap, self.last_index);
            self.last_index += 1;
            if !set {
                p += 1;
                if p == count {
                    let page: usize = self.last_index - count;
                    let mut i: usize = page;
                    while i < self.last_index
                        invariant
                            page <= i <= self.last_index <= pages,
                            self.last_index == page + count,
                            pages == self.highest_page / 4096,
                            before.wf(),
                            self@.reserved == before.reserved,
                            self@.highest_page == before.highest_page,
                            self@.used == set_range(before.used, page as int, i - page, true),
                        decreases self.last_index - i,
                    {
                        self.set_page(i);
                        i += 1;
                    }
                    proof {
                        lemma_first_fit_is(
                            before,
                            before.cursor,
                            limit as int,
                            count as int,
                            page as int,
                        );
                    }
                    return Some(page * PAGE_SIZE);
                }
            } else {
                proof {
                    if count > 0 {
                        assert forall|t: int|
                            before.cursor <= t < self.last_index implies !before.is_free_run(
                            t,
                            count as int,
                        ) by {
                            if at - p <= t {
                                assert(!before.is_free(at));
                            }
                        }
                    }
                }
                p = 0;
            }
        }
        proof {
            lemma_first_fit_none(before, before.cursor, limit as int, count as int);
        }
        None
    }

    /// Hands out `count` pages in a row and returns the address of the first.
    ///
    /// The scan starts at the cursor and runs to the last page; where it finds
    /// nothing it starts over at page 0 and runs up to where the cursor stood.
    /// The pages found are marked as used and the cursor moves just past them.
    /// Where neither scan finds a run, or `count` is 0, the result is `None`
    /// and the allocator is unchanged.
    pub fn allocate(&mut self, count: usize) -> (r: Option<usize>)
        ensures
            old(self)@.wf(),
            final(self)@.wf(),
            final(self)@ == old(self)@.allocate(count as int),
            r == match old(self)@.alloc_page(count as int) {
                Some(p) => Some((p * 4096) as usize),
                None => None,
            },
            r matches Some(addr) ==> {
                &&& addr % 4096 == 0
                &&& 512 * 4096 <= addr
                &&& addr + count * 4096 <= old(self)@.highest_page
                &&& old(self)@.is_free_run(addr as int / 4096, count as int)
            },
    {
        proof {
            use_type_invariant(&*self);
        }
        let ghost before = self@;
        let l: usize = self.last_index;
        let pages: usize = self.highest_page / PAGE_SIZE;
        proof {
            lemma_first_fit(before, before.cursor, pages as int, count as int);
            lemma_first_fit(before, 0, before.cursor, count as int);
        }
        let r = if let Some(ret) = self.internal_alloc(count, pages) {
            Some(ret)
        } else {
            proof {
                use_type_invariant(&*self);
            }
            self.last_index = 0;
            proof {
                let wrapped = AllocatorState { cursor: 0, ..before };
                assert forall|from: int, limit: int|
                    wrapped.first_fit(from, limit, count as int) == before.first_fit(
                        from,
                        limit,
                        count as int,
                    ) by {
                    lemma_same_fit(wrapped, before, from, limit, count as int);
                }
            }
            self.internal_alloc(count, l)
        };
        proof {
            use_type_invariant(&*self);
            if let Some(p) = before.alloc_page(count as int) {
                assert(before.is_free(p));
            }
        }
        r
    }

    /// Takes back the `count` pages that start at address `addr`.
    ///
    /// The request is granted only if `addr` is the start of a page, the pages
    /// lie below the highest page and every one of them is handed out at the
    /// moment; then they are marked as free. Otherwise the allocator is
    /// unchanged and the error says which of these failed first. The cursor
    /// does not move.
    pub fn free(&mut self, addr: usize, count: usize) -> (r: Result<(), PmmError>)
        ensures
            old(self)@.wf(),
            final(self)@.wf(),
            match r {
                Ok(_) => {
                    &&& addr % 4096 == 0
                    &&& old(self)@.can_free(addr as int / 4096, count as int)
                    &&& final(self)@ == old(self)@.release(addr as int / 4096, count as int)
                },
                Err(e) => {
                    &&& final(self)@ == old(self)@
                    &&& e == if addr % 4096 != 0 {
                        PmmError::Misaligned
                    } else if addr / 4096 + count > old(self)@.pages() {
                        PmmError::OutOfRange
                    } else {
                        PmmError::NotAllocated
                    }
                    &&& addr % 4096 != 0 || !old(self)@.can_free(addr as int / 4096, count as int)
                },
            },
    {
        proof {
            use_type_invariant(&*self);
        }
        let ghost before = self@;
        if addr % PAGE_SIZE != 0 {
            return Err(PmmError::Misaligned);
        }
        let idx: usize = addr / PAGE_SIZE;
        let pages: usize = self.highest_page / PAGE_SIZE;
        if idx > pages || count > pages - idx {
            return Err(PmmError::OutOfRange);
        }
        let end: usize = idx + count;
        let mut i: usize = idx;
        while i < end
            invariant
                idx <= i <= end <= pages,
                end == idx + count,
                idx == addr / 4096,
                addr % 4096 == 0,
                pages == self.highest_page / 4096,
                self.inv(),
                before.wf(),
                self@ == before,
                forall|j: int| idx <= j < i ==> before.is_allocated(j),
            decreases end - i,
        {
            let used: bool = bit_test(&self.bitmap, i);
            let kept: bool = bit_test(&self.reserved, i);
            if !used || kept {
                assert(!before.is_allocated(i as int));
                return Err(PmmError::NotAllocated);
            }
            i += 1;
        }
        let mut i: usize = idx;
        while i < end
            invariant
                idx <= i <= end <= pages,
                end == idx + count,
                pages == self.highest_page / 4096,
                before.wf(),
                before.can_free(idx as int, count as int),
                self@.reserved == before.reserved,
                self@.highest_page == before.highest_page,
                self@.cursor == before.cursor,
                self@.used == set_range(before.used, idx as int, i - idx, false),
            decreases end - i,
        {
            assert(before.is_allocated(i as int));
            self.clear_page(i);
            i += 1;
        }
        proof {
            use_type_invariant(&*self);
        }
        Ok(())
    }

    /// Counts the free pages.
    pub fn free_pages(&self) -> (n: usize)
        ensures
            n == self@.free_pages(),
    {
        proof {
            use_type_invariant(self);
        }
        let pages: usize = self.highest_page / PAGE_SIZE;
        let mut n: usize = 0;
        let mut i: usize = 0;
        while i < pages
            invariant
                i <= pages,
                pages == self.highest_page / 4096,
                pages <= self.bitmap.len() * 64,
                n <= i,
                n == count_free(self@.used.take(i as int)),
            decreases pages - i,
        {
            let used: bool = bit_test(&self.bitmap, i);
            proof {
                assert(self@.used.take(i + 1).drop_last() =~= self@.used.take(i as int));
            }
            if !used {
                n += 1;
            }
            i += 1;
        }
        proof {
            assert(self@.used.take(pages as int) =~= self@.used);
        }
        n
    }
}

/// The first fit depends on the pages in use alone, not on the cursor.
proof fn lemma_same_fit(a: AllocatorState, b: AllocatorState, from: int, limit: int, count: int)
    requires
        a.used == b.used,
    ensures
        a.first_fit(from, limit, count) == b.first_fit(from, limit, count),
    decreases limit - from,
{
    if count > 0 && from + count <= limit {
        assert(a.is_free_run(from, count) == b.is_free_run(from, count)) by {
            assert forall|i: int| a.is_free(i) == b.is_free(i) by {}
        }
        if !a.is_free_run(from, count) {
            lemma_same_fit(a, b, from + 1, limit, count);
        }
    }
}

/// The free regions among the first `n + 1` hold a page exactly if those
/// among the first `n` do or region `n` does.
proof fn lemma_freed_by_next(mmap: Seq<MemoryEntry>, n: int, p: int)
    ensures
        freed_by_prefix(mmap, n + 1, p) == (freed_by_prefix(mmap, n, p) || region_frees(
            mmap,
            n,
            p,
        )),
{
}

} // verus!
