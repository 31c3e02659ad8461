use vstd::prelude::*;

verus! {

/// Caller-held paging state: an offset into the deterministic catalog and a
/// page size. The caller creates one per browsing session and advances it
/// after each page; the engine itself never mutates it.
#[derive(Clone, Copy, PartialEq, Eq, Structural, Debug)]
pub struct FetchCursor {
    pub start: u64,
    pub limit: u64,
}

impl FetchCursor {
    /// A cursor is well formed when its page size is positive.
    pub open spec fn wf(self) -> bool {
        self.limit >= 1
    }

    pub fn new(start: u64, limit: u64) -> (c: Self)
        requires
            limit >= 1,
        ensures
            c.start == start,
            c.limit == limit,
            c.wf(),
    {
        FetchCursor { start, limit }
    }

    /// Advance past a full page. The offset never moves backwards.
    pub fn advance(&mut self)
        requires
            old(self).start + old(self).limit <= u64::MAX,
        ensures
            final(self).start == old(self).start + old(self).limit,
            final(self).limit == old(self).limit,
            final(self).start >= old(self).start,
    {
        self.start = self.start + self.limit;
    }

    /// Advance by the number of genuinely new items when a page under-fills.
    pub fn advance_by(&mut self, count: u64)
        requires
            old(self).start + count <= u64::MAX,
        ensures
            final(self).start == old(self).start + count,
            final(self).limit == old(self).limit,
            final(self).start >= old(self).start,
    {
        self.start = self.start + count;
    }
}

} // verus!
