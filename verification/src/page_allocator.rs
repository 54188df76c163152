//! A small page allocator for early boot: a fixed number of pages from a
//! base address on, one byte of bookkeeping per page.

use vstd::prelude::*;

verus! {

/// Size of one page in bytes.
pub const PAGE_SIZE: u64 = 4096;

/// Number of pages the allocator can keep track of.
pub const MAX_PAGES: usize = 16384;

/// How many pages there are and how many of them are free.
#[derive(Copy, Clone, Debug, PartialEq, Eq, Structural)]
pub struct PageAllocatorStats {
    pub total_pages: usize,
    pub free_pages: usize,
}

/// Why pages could not be given back.
#[derive(Copy, Clone, Debug, PartialEq, Eq, Structural)]
pub enum PageError {
    NotInitialized,
    BelowBase,
    OutOfRange,
    AlreadyFree,
    ZeroCount,
    RangeOutOfBounds,
}

impl PageError {
    pub open spec fn text(self) -> Seq<char> {
        match self {
            PageError::NotInitialized => "allocator not initialized"@,
            PageError::BelowBase => "address below base"@,
            PageError::OutOfRange => "address out of range"@,
            PageError::AlreadyFree => "page already free"@,
            PageError::ZeroCount => "count is zero"@,
            PageError::RangeOutOfBounds => "range out of bounds"@,
        }
    }

    pub fn message(&self) -> (r: &'static str)
        ensures
            r@ == self.text(),
    {
        match self {
            PageError::NotInitialized => "allocator not initialized",
            PageError::BelowBase => "address below base",
            PageError::OutOfRange => "address out of range",
            PageError::AlreadyFree => "page already free",
            PageError::ZeroCount => "count is zero",
            PageError::RangeOutOfBounds => "range out of bounds",
        }
    }
}

/// Number of free pages among the first `n`.
pub open spec fn count_free(used: Seq<bool>, n: int) -> int
    decreases n,
{
    if n <= 0 {
        0
    } else {
        count_free(used, n - 1) + if used[n - 1] {
            0int
        } else {
            1int
        }
    }
}

/// The count lies between zero and the number of pages looked at.
pub proof fn lemma_count_free_bound(used: Seq<bool>, n: int)
    requires
        0 <= n,
    ensures
        0 <= count_free(used, n) <= n,
    decreases n,
{
    if n > 0 {
        lemma_count_free_bound(used, n - 1);
    }
}

/// Pages that agree below `n` give the same count.
pub proof fn lemma_count_free_same(a: Seq<bool>, b: Seq<bool>, n: int)
    requires
        forall|i: int| 0 <= i < n ==> a[i] == b[i],
    ensures
        count_free(a, n) == count_free(b, n),
    decreases n,
{
    if n > 0 {
        lemma_count_free_same(a, b, n - 1);
    }
}

/// Changing the state of page `i` below `n` changes the count by one, or
/// not at all if the state stays.
pub proof fn lemma_count_free_update(used: Seq<bool>, n: int, i: int, b: bool)
    requires
        0 <= i < n <= used.len(),
    ensures
        count_free(used.update(i, b), n) == count_free(used, n) + (if used[i] {
            0int
        } else {
            -1int
        }) + (if b {
            0int
        } else {
            1int
        }),
    decreases n,
{
    if i == n - 1 {
        lemma_count_free_same(used.update(i, b), used, n - 1);
    } else {
        lemma_count_free_update(used, n - 1, i, b);
    }
}

/// Whether the `count` pages from `start` on are all free.
pub open spec fn is_free_run(used: Seq<bool>, start: int, count: int) -> bool {
    forall|i: int| start <= i < start + count ==> !#[trigger] used[i]
}

/// The mathematical state of the allocator.
pub struct PageState {
    pub base: u64,
    pub total_pages: int,
    /// `used[i]` holds when page `i` is taken; beyond `total_pages` every
    /// page counts as taken.
    pub used: Seq<bool>,
    pub initialized: bool,
    pub free_count: int,
}

impl PageState {
    pub open spec fn wf(self) -> bool {
        &&& self.used.len() == MAX_PAGES
        &&& 0 <= self.total_pages <= MAX_PAGES
        &&& self.base + self.total_pages * 4096 <= u64::MAX
        &&& self.free_count == count_free(self.used, self.total_pages)
        &&& forall|i: int| self.total_pages <= i < MAX_PAGES ==> self.used[i]
    }

    /// Index of the page that holds `addr`.
    pub open spec fn index_of(self, addr: u64) -> int {
        (addr - self.base) / 4096
    }

    /// Address of page `i`.
    pub open spec fn address_of(self, i: int) -> u64 {
        (self.base + i * 4096) as u64
    }

    /// The first free page, if there is one.
    pub open spec fn first_free(self, from: int) -> Option<int>
        decreases self.total_pages - from,
    {
        if from < 0 || from >= self.total_pages {
            None
        } else if !self.used[from] {
            Some(from)
        } else {
            self.first_free(from + 1)
        }
    }

    /// Whether `start` is where the lowest run of `count` free pages
    /// begins.
    pub open spec fn lowest_run(self, start: int, count: int) -> bool {
        &&& 0 <= start
        &&& start + count <= self.total_pages
        &&& is_free_run(self.used, start, count)
        &&& forall|s: int| 0 <= s < start ==> !#[trigger] is_free_run(self.used, s, count)
    }

    /// Whether some run of `count` free pages exists.
    pub open spec fn has_run(self, count: int) -> bool {
        exists|s: int|
            0 <= s && s + count <= self.total_pages && #[trigger] is_free_run(self.used, s, count)
    }

    /// What handing out one page comes to: the lowest free page is taken
    /// and its address returned; with no free page, or before `init`,
    /// nothing changes.
    pub open spec fn page_allocated(self, post: PageState, r: Option<u64>) -> bool {
        match r {
            Some(addr) => {
                &&& self.initialized
                &&& self.first_free(0) matches Some(i)
                &&& addr == self.address_of(i)
                &&& post == (PageState {
                    used: self.used.update(i, true),
                    free_count: self.free_count - 1,
                    ..self
                })
            },
            None => {
                &&& post == self
                &&& !self.initialized || self.first_free(0) is None
            },
        }
    }

    /// What handing out `count` pages in a row comes to: the lowest run of
    /// that many free pages is taken and the address of its first page
    /// returned; with no such run, with `count` zero, or before `init`,
    /// nothing changes.
    pub open spec fn pages_allocated(self, post: PageState, count: int, r: Option<u64>) -> bool {
        match r {
            Some(addr) => {
                &&& self.initialized
                &&& count > 0
                &&& exists|s: int| #[trigger]
                    self.lowest_run(s, count) && addr == self.address_of(s) && post == (PageState {
                        used: self.marked(s, count, true),
                        free_count: self.free_count - count,
                        ..self
                    })
            },
            None => {
                &&& post == self
                &&& !self.initialized || count == 0 || !self.has_run(count)
            },
        }
    }

    /// What giving back the page at `addr` comes to, and when it is
    /// refused.
    pub open spec fn page_freed(self, post: PageState, addr: u64, r: Result<(), PageError>) -> bool {
        &&& r == (if !self.initialized {
            Err::<(), PageError>(PageError::NotInitialized)
        } else if addr < self.base {
            Err(PageError::BelowBase)
        } else if self.index_of(addr) >= self.total_pages {
            Err(PageError::OutOfRange)
        } else if !self.used[self.index_of(addr)] {
            Err(PageError::AlreadyFree)
        } else {
            Ok(())
        })
        &&& r is Err ==> post == self
        &&& r is Ok ==> post == (PageState {
            used: self.used.update(self.index_of(addr), false),
            free_count: self.free_count + 1,
            ..self
        })
    }

    /// What giving back `count` pages from `addr` on comes to, and when it
    /// is refused.
    pub open spec fn pages_freed(
        self,
        post: PageState,
        addr: u64,
        count: int,
        r: Result<(), PageError>,
    ) -> bool {
        &&& r == (if count == 0 {
            Err::<(), PageError>(PageError::ZeroCount)
        } else if !self.initialized {
            Err(PageError::NotInitialized)
        } else if addr < self.base {
            Err(PageError::BelowBase)
        } else if self.index_of(addr) + count > self.total_pages {
            Err(PageError::RangeOutOfBounds)
        } else {
            Ok(())
        })
        &&& r is Err ==> post == self
        &&& r is Ok ==> post == (PageState {
            used: self.marked(self.index_of(addr), count, false),
            free_count: count_free(
                self.marked(self.index_of(addr), count, false),
                self.total_pages,
            ),
            ..self
        })
    }

    /// The state with the `count` pages from `start` on marked `b`.
    pub open spec fn marked(self, start: int, count: int, b: bool) -> Seq<bool> {
        Seq::new(
            MAX_PAGES as nat,
            |i: int|
                if start <= i < start + count {
                    b
                } else {
                    self.used[i]
                },
        )
    }
}

pub struct PageAllocator {
    base: u64,
    total_pages: usize,
    map: [u8; 16384],
    initialized: bool,
    free_count: usize,
}

impl View for PageAllocator {
    type V = PageState;

    closed spec fn view(&self) -> PageState {
        PageState {
            base: self.base,
            total_pages: self.total_pages as int,
            used: Seq::new(MAX_PAGES as nat, |i: int| self.map[i] != 0),
            initialized: self.initialized,
            free_count: self.free_count as int,
        }
    }
}

impl PageAllocator {
    /// An allocator that knows of no pages yet.
    pub fn new() -> (r: Self)
        ensures
            r@.wf(),
            !r@.initialized,
            r@.total_pages == 0,
            r@.free_count == 0,
            r@.base == 0,
    {
        PageAllocator { base: 0, total_pages: 0, map: [1u8; 16384], initialized: false, free_count: 0 }
    }

    /// Sets the allocator up for `total_pages` pages from `base` on, at
    /// most `MAX_PAGES`; all of them are free afterwards.
    pub fn init(&mut self, base: u64, total_pages: usize)
        requires
            base + (if total_pages < MAX_PAGES {
                total_pages
            } else {
                MAX_PAGES
            }) * 4096 <= u64::MAX,
        ensures
            final(self)@.wf(),
            final(self)@.initialized,
            final(self)@.base == base,
            final(self)@.total_pages == (if total_pages < MAX_PAGES {
                total_pages
            } else {
                MAX_PAGES
            }),
            final(self)@.free_count == final(self)@.total_pages,
            forall|i: int| 0 <= i < final(self)@.total_pages ==> !final(self)@.used[i],
    {
        let total: usize = if total_pages < MAX_PAGES {
            total_pages
        } else {
            MAX_PAGES
        };
        self.base = base;
        self.total_pages = total;
        self.free_count = total;
        let mut i: usize = 0;
        while i < total
            invariant
                0 <= i <= total <= MAX_PAGES,
                self.base == base,
                self.total_pages == total,
                self.free_count == total,
                forall|j: int| 0 <= j < i ==> self.map[j] == 0,
            decreases total - i,
        {
            self.map[i] = 0;
            i = i + 1;
        }
        while i < MAX_PAGES
            invariant
                total <= i <= MAX_PAGES,
                self.base == base,
                self.total_pages == total,
                self.free_count == total,
                forall|j: int| 0 <= j < total ==> self.map[j] == 0,
                forall|j: int| total <= j < i ==> self.map[j] == 1,
            decreases MAX_PAGES - i,
        {
            self.map[i] = 1;
            i = i + 1;
        }
        self.initialized = true;
        proof {
            lemma_all_free(self@.used, total as int);
        }
    }

    /// Hands out the lowest free page and returns its address.
    pub fn allocate_page(&mut self) -> (r: Option<u64>)
        requires
            old(self)@.wf(),
        ensures
            final(self)@.wf(),
            old(self)@.page_allocated(final(self)@, r),
    {
        if !self.initialized {
            return None;
        }
        let mut i: usize = 0;
        while i < self.total_pages
            invariant
                0 <= i <= self.total_pages,
                *self == *old(self),
                self.initialized,
                self@.wf(),
                self@.first_free(0) == self@.first_free(i as int),
            decreases self.total_pages - i,
        {
            if self.map[i] == 0 {
                proof {
                    lemma_count_free_update(self@.used, self.total_pages as int, i as int, true);
                    lemma_count_free_bound(self@.used.update(i as int, true), self.total_pages as int);
                    assert(self@.first_free(i as int) == Some(i as int));
                }
                self.map[i] = 1;
                self.free_count = self.free_count - 1;
                assert(self@.used =~= old(self)@.used.update(i as int, true));
                return Some(self.base + (i as u64) * PAGE_SIZE);
            }
            i = i + 1;
        }
        None
    }

    /// Hands out the lowest run of `count` free pages in a row and returns
    /// the address of its first page.
    pub fn allocate_pages(&mut self, count: usize) -> (r: Option<u64>)
        requires
            old(self)@.wf(),
        ensures
            final(self)@.wf(),
            old(self)@.pages_allocated(final(self)@, count as int, r),
    {
        if !self.initialized || count == 0 || count > self.total_pages {
            proof {
                if self.initialized && count > 0 && self@.has_run(count as int) {
                    assert(false);
                }
            }
            return None;
        }
        let mut run_len: usize = 0;
        let mut i: usize = 0;
        while i < self.total_pages
            invariant
                0 <= i <= self.total_pages,
                *self == *old(self),
                self.initialized,
                self@.wf(),
                0 < count <= self.total_pages,
                run_len < count,
                run_len <= i,
                is_free_run(self@.used, i - run_len, run_len as int),
                i - run_len == 0 || self@.used[i - run_len - 1],
                forall|s: int| 0 <= s && s + count <= i ==> !#[trigger] is_free_run(
                    self@.used,
                    s,
                    count as int,
                ),
            decreases self.total_pages - i,
        {
            if self.map[i] == 0 {
                run_len = run_len + 1;
                if run_len == count {
                    let run_start: usize = i + 1 - count;
                    let ghost before = self@;
                    let mut j: usize = run_start;
                    while j < run_start + count
                        invariant
                            run_start <= j <= run_start + count,
                            run_start + count <= self.total_pages <= MAX_PAGES,
                            self.base == old(self).base,
                            self.total_pages == old(self).total_pages,
                            self.initialized == old(self).initialized,
                            self.free_count == old(self).free_count,
                            self@.used == before.marked(run_start as int, j - run_start, true),
                        decreases run_start + count - j,
                    {
                        let ghost earlier = self@.used;
                        self.map[j] = 1;
                        j = j + 1;
                        proof {
                            assert forall|k: int| 0 <= k < MAX_PAGES implies self@.used[k]
                                == before.marked(run_start as int, j - run_start, true)[k] by {
                                if k != j - 1 {
                                    assert(earlier[k] == before.marked(
                                        run_start as int,
                                        j - 1 - run_start,
                                        true,
                                    )[k]);
                                }
                            }
                            assert(self@.used =~= before.marked(
                                run_start as int,
                                j - run_start,
                                true,
                            ));
                        }
                    }
                    proof {
                        assert(self@.used =~= before.marked(run_start as int, count as int, true));
                        lemma_count_free_marked(
                            before.used,
                            self@.used,
                            self.total_pages as int,
                            run_start as int,
                            count as int,
                        );
                        lemma_count_free_bound(self@.used, self.total_pages as int);
                        assert(before.lowest_run(run_start as int, count as int)) by {
                            assert forall|s: int| 0 <= s < run_start implies !#[trigger] is_free_run(
                                before.used,
                                s,
                                count as int,
                            ) by {
                                if s + count <= i {
                                } else {
                                    assert(before.used[run_start - 1]);
                                }
                            }
                        }
                    }
                    self.free_count = self.free_count - count;
                    return Some(self.base + (run_start as u64) * PAGE_SIZE);
                }
            } else {
                run_len = 0;
            }
            proof {
                assert forall|s: int| 0 <= s && s + count <= i + 1 implies !#[trigger] is_free_run(
                    self@.used,
                    s,
                    count as int,
                ) by {
                    if s + count == i + 1 {
                        if self.map[i as int] == 0 {
                            assert(self@.used[i - (run_len - 1) - 1]);
                        } else {
                            assert(self@.used[i as int]);
                        }
                    }
                }
            }
            i = i + 1;
        }
        None
    }

    /// Gives back the page that holds `addr`.
    pub fn free_page(&mut self, addr: u64) -> (r: Result<(), PageError>)
        requires
            old(self)@.wf(),
        ensures
            final(self)@.wf(),
            old(self)@.page_freed(final(self)@, addr, r),
    {
        if !self.initialized {
            return Err(PageError::NotInitialized);
        }
        if addr < self.base {
            return Err(PageError::BelowBase);
        }
        let index: u64 = (addr - self.base) / PAGE_SIZE;
        if index >= self.total_pages as u64 {
            return Err(PageError::OutOfRange);
        }
        let idx: usize = index as usize;
        if self.map[idx] == 0 {
            return Err(PageError::AlreadyFree);
        }
        proof {
            lemma_count_free_update(self@.used, self.total_pages as int, idx as int, false);
            lemma_count_free_bound(self@.used.update(idx as int, false), self.total_pages as int);
        }
        self.map[idx] = 0;
        self.free_count = self.free_count + 1;
        assert(self@.used =~= old(self)@.used.update(idx as int, false));
        Ok(())
    }

    /// Gives back the `count` pages from the one that holds `addr` on,
    /// whether or not they were taken.
    pub fn free_pages(&mut self, addr: u64, count: usize) -> (r: Result<(), PageError>)
        requires
            old(self)@.wf(),
        ensures
            final(self)@.wf(),
            old(self)@.pages_freed(final(self)@, addr, count as int, r),
    {
        if count == 0 {
            return Err(PageError::ZeroCount);
        }
        if !self.initialized {
            return Err(PageError::NotInitialized);
        }
        if addr < self.base {
            return Err(PageError::BelowBase);
        }
        let index: u64 = (addr - self.base) / PAGE_SIZE;
        if index > self.total_pages as u64 || count > self.total_pages - (index as usize) {
            return Err(PageError::RangeOutOfBounds);
        }
        let start: usize = index as usize;
        let ghost before = self@;
        let mut i: usize = start;
        while i < start + count
            invariant
                start <= i <= start + count,
                start + count <= self.total_pages <= MAX_PAGES,
                self.base == old(self).base,
                self.total_pages == old(self).total_pages,
                self.initialized == old(self).initialized,
                self@.used == before.marked(start as int, i - start, false),
            decreases start + count - i,
        {
            let ghost earlier = self@.used;
            self.map[i] = 0;
            i = i + 1;
            proof {
                assert forall|k: int| 0 <= k < MAX_PAGES implies self@.used[k] == before.marked(
                    start as int,
                    i - start,
                    false,
                )[k] by {
                    if k != i - 1 {
                        assert(earlier[k] == before.marked(start as int, i - 1 - start, false)[k]);
                    }
                }
                assert(self@.used =~= before.marked(start as int, i - start, false));
            }
        }
        let mut cnt: usize = 0;
        let mut k: usize = 0;
        while k < self.total_pages
            invariant
                0 <= k <= self.total_pages <= MAX_PAGES,
                self.base == old(self).base,
                self.total_pages == old(self).total_pages,
                self.initialized == old(self).initialized,
                self@.used == before.marked(start as int, count as int, false),
                cnt == count_free(self@.used, k as int),
                cnt <= k,
            decreases self.total_pages - k,
        {
            if self.map[k] == 0 {
                cnt = cnt + 1;
            }
            k = k + 1;
        }
        self.free_count = cnt;
        Ok(())
    }

    pub fn stats(&self) -> (r: PageAllocatorStats)
        ensures
            r.total_pages == self@.total_pages,
            r.free_pages == self@.free_count,
    {
        PageAllocatorStats { total_pages: self.total_pages, free_pages: self.free_count }
    }
}

/// With the first `n` pages free, `n` pages are free.
pub proof fn lemma_all_free(used: Seq<bool>, n: int)
    requires
        0 <= n,
        forall|i: int| 0 <= i < n ==> !used[i],
    ensures
        count_free(used, n) == n,
    decreases n,
{
    if n > 0 {
        lemma_all_free(used, n - 1);
    }
}

/// Taking a run of free pages takes as many pages as the run is long.
pub proof fn lemma_count_free_marked(
    used: Seq<bool>,
    after: Seq<bool>,
    n: int,
    start: int,
    count: int,
)
    requires
        0 <= start,
        0 <= count,
        start + count <= n <= used.len(),
        after.len() == used.len(),
        is_free_run(used, start, count),
        forall|i: int|
            0 <= i < used.len() ==> after[i] == (if start <= i < start + count {
                true
            } else {
                used[i]
            }),
    ensures
        count_free(after, n) == count_free(used, n) - count,
    decreases count,
{
    if count == 0 {
        lemma_count_free_same(after, used, n);
    } else {
        let fewer = after.update(start + count - 1, false);
        assert(is_free_run(used, start, count - 1));
        assert(!used[start + count - 1]);
        lemma_count_free_marked(used, fewer, n, start, count - 1);
        lemma_count_free_update(fewer, n, start + count - 1, true);
        assert(after =~= fewer.update(start + count - 1, true));
    }
}

/// Sets `allocator` up: see `PageAllocator::init`.
pub fn init_page_allocator(allocator: &mut PageAllocator, base: u64, total_pages: usize)
    requires
        base + (if total_pages < MAX_PAGES {
            total_pages
        } else {
            MAX_PAGES
        }) * 4096 <= u64::MAX,
    ensures
        final(allocator)@.wf(),
        final(allocator)@.initialized,
        final(allocator)@.base == base,
        final(allocator)@.total_pages == (if total_pages < MAX_PAGES {
            total_pages
        } else {
            MAX_PAGES
        }),
        final(allocator)@.free_count == final(allocator)@.total_pages,
        forall|i: int| 0 <= i < final(allocator)@.total_pages ==> !final(allocator)@.used[i],
{
    allocator.init(base, total_pages)
}

/// Hands out one page of `allocator`.
pub fn allocate_page(allocator: &mut PageAllocator) -> (r: Option<u64>)
    requires
        old(allocator)@.wf(),
    ensures
        final(allocator)@.wf(),
        old(allocator)@.page_allocated(final(allocator)@, r),
{
    allocator.allocate_page()
}

/// Hands out `count` pages of `allocator` in a row.
pub fn allocate_pages(allocator: &mut PageAllocator, count: usize) -> (r: Option<u64>)
    requires
        old(allocator)@.wf(),
    ensures
        final(allocator)@.wf(),
        old(allocator)@.pages_allocated(final(allocator)@, count as int, r),
{
    allocator.allocate_pages(count)
}

/// Gives one page back to `allocator`.
pub fn free_page(allocator: &mut PageAllocator, addr: u64) -> (r: Result<(), PageError>)
    requires
        old(allocator)@.wf(),
    ensures
        final(allocator)@.wf(),
        old(allocator)@.page_freed(final(allocator)@, addr, r),
{
    allocator.free_page(addr)
}

/// Gives `count` pages back to `allocator`.
pub fn free_pages(allocator: &mut PageAllocator, addr: u64, count: usize) -> (r: Result<
    (),
    PageError,
>)
    requires
        old(allocator)@.wf(),
    ensures
        final(allocator)@.wf(),
        old(allocator)@.pages_freed(final(allocator)@, addr, count as int, r),
{
    allocator.free_pages(addr, count)
}

/// The statistics of `allocator`.
pub fn page_allocator_stats(allocator: &PageAllocator) -> (r: PageAllocatorStats)
    ensures
        r.total_pages == allocator@.total_pages,
        r.free_pages == allocator@.free_count,
{
    allocator.stats()
}

} // verus!
