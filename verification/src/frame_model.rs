//! Mathematical model of the frame allocator: which pages are in use, which
//! are reserved for good, and where the next scan starts.

use vstd::prelude::*;

verus! {

/// The abstract state of a frame allocator.
#[verifier::ext_equal]
pub struct AllocatorState {
    /// The highest installed address, which the machine can express; the
    /// allocator manages the whole pages below it.
    pub highest_page: int,
    /// `used[p]` says that page `p` is in use or unavailable.
    pub used: Seq<bool>,
    /// `reserved[p]` says that page `p` was unavailable from the start and is never handed out.
    pub reserved: Seq<bool>,
    /// The page at which the next scan starts.
    pub cursor: int,
}

/// `bits` with the `count` entries from `start` on replaced by `value`.
pub open spec fn set_range(bits: Seq<bool>, start: int, count: int, value: bool) -> Seq<bool> {
    Seq::new(
        bits.len(),
        |i: int|
            if start <= i < start + count {
                value
            } else {
                bits[i]
            },
    )
}

/// Number of `false` entries in `bits`.
pub open spec fn count_free(bits: Seq<bool>) -> int
    decreases bits.len(),
{
    if bits.len() == 0 {
        0
    } else {
        count_free(bits.drop_last()) + if bits.last() {
            0int
        } else {
            1int
        }
    }
}

impl AllocatorState {
    /// Number of pages that the allocator manages.
    pub open spec fn pages(self) -> int {
        self.used.len() as int
    }

    /// The invariant of every allocator state.
    pub open spec fn wf(self) -> bool {
        &&& 0 <= self.highest_page <= usize::MAX
        &&& self.used.len() == self.highest_page / 4096
        &&& self.reserved.len() == self.used.len()
        &&& 0 <= self.cursor <= self.used.len()
        &&& forall|p: int| 0 <= p < self.used.len() && self.reserved[p] ==> self.used[p]
        &&& forall|p: int| 0 <= p < self.used.len() && p < 512 ==> self.reserved[p]
    }

    /// Whether page `p` is free.
    pub open spec fn is_free(self, p: int) -> bool {
        0 <= p < self.used.len() && !self.used[p]
    }

    /// Whether page `p` is currently handed out: in use, and not reserved.
    pub open spec fn is_allocated(self, p: int) -> bool {
        0 <= p < self.used.len() && self.used[p] && !self.reserved[p]
    }

    /// Whether the `count` pages from `start` on are all free.
    pub open spec fn is_free_run(self, start: int, count: int) -> bool {
        forall|i: int| start <= i < start + count ==> self.is_free(i)
    }

    /// The lowest page `p` with `from <= p` and `p + count <= limit` at which a
    /// run of `count` free pages starts. A request for no pages finds nothing.
    pub open spec fn first_fit(self, from: int, limit: int, count: int) -> Option<int>
        decreases limit - from,
    {
        if count <= 0 || from + count > limit {
            None
        } else if self.is_free_run(from, count) {
            Some(from)
        } else {
            self.first_fit(from + 1, limit, count)
        }
    }

    /// The page that an allocation of `count` pages returns: the first fit
    /// from the cursor up to the last page, else the first fit that ends at or
    /// before the cursor.
    pub open spec fn alloc_page(self, count: int) -> Option<int> {
        match self.first_fit(self.cursor, self.pages(), count) {
            Some(p) => Some(p),
            None => self.first_fit(0, self.cursor, count),
        }
    }

    /// The state after the `count` pages from `start` on were handed out.
    pub open spec fn take(self, start: int, count: int) -> AllocatorState {
        AllocatorState {
            used: set_range(self.used, start, count, true),
            cursor: start + count,
            ..self
        }
    }

    /// The state after an allocation of `count` pages, successful or not.
    pub open spec fn allocate(self, count: int) -> AllocatorState {
        match self.alloc_page(count) {
            Some(p) => self.take(p, count),
            None => self,
        }
    }

    /// Whether the `count` pages from `start` on may be given back: they lie
    /// in range and each of them is currently handed out.
    pub open spec fn can_free(self, start: int, count: int) -> bool {
        &&& 0 <= start
        &&& 0 <= count
        &&& start + count <= self.pages()
        &&& forall|i: int| start <= i < start + count ==> self.is_allocated(i)
    }

    /// The state after the `count` pages from `start` on were given back; a
    /// request that may not be granted changes nothing.
    pub open spec fn release(self, start: int, count: int) -> AllocatorState {
        if self.can_free(start, count) {
            AllocatorState { used: set_range(self.used, start, count, false), ..self }
        } else {
            self
        }
    }

    /// Number of free pages.
    pub open spec fn free_pages(self) -> int {
        count_free(self.used)
    }
}

/// What `first_fit` returns is the least fitting page, if there is one.
pub proof fn lemma_first_fit(s: AllocatorState, from: int, limit: int, count: int)
    ensures
        match s.first_fit(from, limit, count) {
            Some(p) => {
                &&& count > 0
                &&& from <= p
                &&& p + count <= limit
                &&& s.is_free_run(p, count)
                &&& forall|t: int| from <= t < p ==> !s.is_free_run(t, count)
            },
            None => count <= 0 || forall|t: int|
                from <= t && t + count <= limit ==> !s.is_free_run(t, count),
        },
    decreases limit - from,
{
    if count > 0 && from + count <= limit && !s.is_free_run(from, count) {
        lemma_first_fit(s, from + 1, limit, count);
    }
}

/// A page that fits and has no fitting page below it is the first fit.
pub proof fn lemma_first_fit_is(s: AllocatorState, from: int, limit: int, count: int, p: int)
    requires
        count > 0,
        from <= p,
        p + count <= limit,
        s.is_free_run(p, count),
        forall|t: int| from <= t < p ==> !s.is_free_run(t, count),
    ensures
        s.first_fit(from, limit, count) == Some(p),
{
    lemma_first_fit(s, from, limit, count);
}

/// Where no page fits, there is no first fit.
pub proof fn lemma_first_fit_none(s: AllocatorState, from: int, limit: int, count: int)
    requires
        count <= 0 || forall|t: int| from <= t && t + count <= limit ==> !s.is_free_run(t, count),
    ensures
        s.first_fit(from, limit, count) is None,
{
    lemma_first_fit(s, from, limit, count);
}

/// Overwriting a run of entries that all differ from `value` moves the
/// number of free entries by the length of the run.
pub proof fn lemma_count_set_range(bits: Seq<bool>, start: int, count: int, value: bool)
    requires
        0 <= start,
        0 <= count,
        start + count <= bits.len(),
        forall|i: int| start <= i < start + count ==> bits[i] != value,
    ensures
        count_free(set_range(bits, start, count, value)) == count_free(bits) + if value {
            -count
        } else {
            count
        },
    decreases bits.len(),
{
    let after = set_range(bits, start, count, value);
    if bits.len() == 0 {
    } else if count == 0 {
        assert(after =~= bits);
    } else if start + count < bits.len() {
        lemma_count_set_range(bits.drop_last(), start, count, value);
        assert(after.drop_last() =~= set_range(bits.drop_last(), start, count, value));
    } else {
        lemma_count_set_range(bits.drop_last(), start, count - 1, value);
        assert(after.drop_last() =~= set_range(bits.drop_last(), start, count - 1, value));
    }
}

} // verus!
