//! Laws of the frame allocator, proved of its model for every state and
//! every sequence of requests.

use crate::frame_model::{lemma_count_set_range, lemma_first_fit, AllocatorState};
use crate::memory_map::{
    addressable, initially_used, lemma_highest_address_attained, lemma_highest_nonnegative,
    page_count, MemoryEntry,
};
use crate::pmm::initial_state;
use vstd::prelude::*;

verus! {

/// One request to the allocator.
pub enum Request {
    /// Hand out `count` pages in a row.
    Allocate { count: int },
    /// Take back the `count` pages from page `start` on.
    Free { start: int, count: int },
}

impl AllocatorState {
    /// The state after one request.
    pub open spec fn apply(self, req: Request) -> AllocatorState {
        match req {
            Request::Allocate { count } => self.allocate(count),
            Request::Free { start, count } => self.release(start, count),
        }
    }

    /// By how many pages one request changes what callers hold: a successful
    /// allocation adds its pages, a granted free removes them, and a request
    /// that fails changes nothing.
    pub open spec fn gain(self, req: Request) -> int {
        match req {
            Request::Allocate { count } => if self.alloc_page(count) is Some {
                count
            } else {
                0
            },
            Request::Free { start, count } => if self.can_free(start, count) {
                -count
            } else {
                0
            },
        }
    }

    /// The state after a sequence of requests, served in order.
    pub open spec fn run(self, reqs: Seq<Request>) -> AllocatorState
        decreases reqs.len(),
    {
        if reqs.len() == 0 {
            self
        } else {
            self.run(reqs.drop_last()).apply(reqs.last())
        }
    }

    /// The net number of pages that callers hold after a sequence of
    /// requests, beyond what they held before.
    pub open spec fn net_held(self, reqs: Seq<Request>) -> int
        decreases reqs.len(),
    {
        if reqs.len() == 0 {
            0
        } else {
            self.net_held(reqs.drop_last()) + self.run(reqs.drop_last()).gain(reqs.last())
        }
    }
}

/// A freshly built allocator satisfies the invariant, whatever the memory
/// map, as long as the machine can address it: in particular its first 512
/// pages are reserved.
pub proof fn lemma_initial_state_wf(mmap: Seq<MemoryEntry>)
    requires
        addressable(mmap),
    ensures
        initial_state(mmap).wf(),
{
    lemma_highest_address_attained(mmap);
    lemma_highest_nonnegative(mmap);
}

/// An allocation returns only pages that were free, lie in range and are
/// not reserved; it never returns one of the first 512 pages.
pub proof fn lemma_alloc_page(s: AllocatorState, count: int)
    requires
        s.wf(),
    ensures
        s.alloc_page(count) matches Some(p) ==> {
            &&& count > 0
            &&& 512 <= p
            &&& p + count <= s.pages()
            &&& s.is_free_run(p, count)
        },
{
    lemma_first_fit(s, s.cursor, s.pages(), count);
    lemma_first_fit(s, 0, s.cursor, count);
    if let Some(p) = s.alloc_page(count) {
        assert(s.is_free(p));
    }
}

/// Allocation keeps the invariant, and takes exactly `count` pages from the
/// free ones when it succeeds.
pub proof fn lemma_allocate(s: AllocatorState, count: int)
    requires
        s.wf(),
    ensures
        s.allocate(count).wf(),
        s.allocate(count).reserved == s.reserved,
        s.allocate(count).free_pages() == s.free_pages() - if s.alloc_page(count) is Some {
            count
        } else {
            0
        },
{
    lemma_alloc_page(s, count);
    if let Some(p) = s.alloc_page(count) {
        assert forall|i: int| p <= i < p + count implies s.used[i] != true by {
            assert(s.is_free(i));
        }
        lemma_count_set_range(s.used, p, count, true);
    }
}

/// Giving pages back keeps the invariant, and returns exactly `count` pages
/// to the free ones when the request is granted.
pub proof fn lemma_release(s: AllocatorState, start: int, count: int)
    requires
        s.wf(),
    ensures
        s.release(start, count).wf(),
        s.release(start, count).reserved == s.reserved,
        s.release(start, count).free_pages() == s.free_pages() + if s.can_free(start, count) {
            count
        } else {
            0
        },
{
    if s.can_free(start, count) {
        assert forall|i: int| start <= i < start + count implies s.used[i] != false by {
            assert(s.is_allocated(i));
        }
        lemma_count_set_range(s.used, start, count, false);
        let after = s.release(start, count);
        assert forall|p: int|
            0 <= p < after.used.len() && after.reserved[p] implies after.used[p] by {
            if start <= p < start + count {
                assert(s.is_allocated(p));
            }
        }
    }
}

/// After any sequence of requests the number of free pages is
/// the number before, less the net number of pages that callers hold. A free
/// of pages that are not handed out is refused and so changes neither side.
pub proof fn lemma_conservation(s: AllocatorState, reqs: Seq<Request>)
    requires
        s.wf(),
    ensures
        s.run(reqs).wf(),
        s.run(reqs).reserved == s.reserved,
        s.run(reqs).free_pages() == s.free_pages() - s.net_held(reqs),
    decreases reqs.len(),
{
    if reqs.len() > 0 {
        lemma_conservation(s, reqs.drop_last());
        let mid = s.run(reqs.drop_last());
        match reqs.last() {
            Request::Allocate { count } => lemma_allocate(mid, count),
            Request::Free { start, count } => lemma_release(mid, start, count),
        }
    }
}

/// Two allocations with no free between them never return overlapping
/// pages. For two single pages, the two addresses differ.
pub proof fn lemma_no_double_allocation(s: AllocatorState, first: int, second: int)
    requires
        s.wf(),
    ensures
        match (s.alloc_page(first), s.allocate(first).alloc_page(second)) {
            (Some(a), Some(b)) => a + first <= b || b + second <= a,
            _ => true,
        },
{
    lemma_alloc_page(s, first);
    lemma_allocate(s, first);
    let mid = s.allocate(first);
    lemma_alloc_page(mid, second);
    if let (Some(a), Some(b)) = (s.alloc_page(first), mid.alloc_page(second)) {
        if !(a + first <= b || b + second <= a) {
            let shared = if a <= b {
                b
            } else {
                a
            };
            assert(mid.is_free(shared));
        }
    }
}

/// Whatever the memory map and whatever requests were served since
/// construction, no allocation returns one of the first 512 pages.
pub proof fn lemma_low_memory_reserved(mmap: Seq<MemoryEntry>, reqs: Seq<Request>, count: int)
    requires
        addressable(mmap),
    ensures
        initial_state(mmap).run(reqs).alloc_page(count) matches Some(p) ==> 512 <= p,
{
    lemma_initial_state_wf(mmap);
    lemma_conservation(initial_state(mmap), reqs);
    lemma_alloc_page(initial_state(mmap).run(reqs), count);
}

/// What is unavailable from the start stays so: whatever requests were
/// served since construction, the first 512 pages, the pages that store the
/// bitmap and every page outside the free regions are marked as used.
pub proof fn lemma_reserved_pages_stay_used(mmap: Seq<MemoryEntry>, reqs: Seq<Request>, p: int)
    requires
        addressable(mmap),
        0 <= p < page_count(mmap),
        initially_used(mmap, p),
    ensures
        initial_state(mmap).run(reqs).used[p],
{
    lemma_initial_state_wf(mmap);
    lemma_conservation(initial_state(mmap), reqs);
}

/// Where no run of `count` free pages exists anywhere, an allocation of
/// `count` pages finds nothing and leaves the state as it was.
pub proof fn lemma_exhaustion(s: AllocatorState, count: int)
    requires
        s.wf(),
        forall|start: int|
            0 <= start && start + count <= s.pages() ==> !s.is_free_run(start, count),
    ensures
        s.alloc_page(count) is None,
        s.allocate(count) == s,
{
    lemma_first_fit(s, s.cursor, s.pages(), count);
    lemma_first_fit(s, 0, s.cursor, count);
}

/// A run of free pages that does not straddle the cursor is always found:
/// allocation fails only if no such run exists.
pub proof fn lemma_alloc_finds_run(s: AllocatorState, count: int, start: int)
    requires
        s.wf(),
        count > 0,
        0 <= start,
        start + count <= s.pages(),
        s.is_free_run(start, count),
        s.cursor <= start || start + count <= s.cursor,
    ensures
        s.alloc_page(count) is Some,
{
    lemma_first_fit(s, s.cursor, s.pages(), count);
    lemma_first_fit(s, 0, s.cursor, count);
}

} // verus!
