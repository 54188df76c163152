//! The bump-region heap: every usable stretch of physical memory that
//! survives filtering becomes a region from which memory is handed out
//! front to back and never taken back.

use vstd::prelude::*;
use crate::memory_map::{MemoryMap, MemoryRegionType};

verus! {

/// Nothing below this address is handed out: 8 MiB.
pub const MIN_SAFE_ADDRESS: u64 = 0x80_0000;

/// A region smaller than this is not kept: one page.
pub const MIN_REGION_SIZE: u64 = 4096;

/// Number of regions the heap can hold.
pub const MAX_HEAP_REGIONS: usize = 8;

/// The smallest multiple of `align` that is not below `x`.
pub open spec fn align_up(x: int, align: int) -> int {
    if x % align == 0 {
        x
    } else {
        x + align - x % align
    }
}

/// A contiguous span of physical memory and how much of it is gone.
#[derive(Debug, Copy, Clone, PartialEq, Eq, Structural)]
pub struct MemoryRegion {
    pub start: u64,
    pub end: u64,
    pub used: u64,
}

impl MemoryRegion {
    /// What is used lies inside the span.
    pub open spec fn wf(self) -> bool {
        self.start + self.used <= self.end
    }

    /// Region and result of a request for `size` bytes aligned to `align`:
    /// the bytes start at the first aligned address that is still free,
    /// and the request is turned down when they would pass the end. A
    /// block at address zero is taken but not handed out.
    pub open spec fn allocated(self, size: int, align: int) -> (MemoryRegion, Option<u64>) {
        let aligned = align_up(self.start + self.used, align);
        if aligned + size <= self.end {
            (
                MemoryRegion { used: (aligned + size - self.start) as u64, ..self },
                if aligned == 0 {
                    None
                } else {
                    Some(aligned as u64)
                },
            )
        } else {
            (self, None)
        }
    }

    /// The region `[start, start + size)` with nothing used.
    pub fn new(start: u64, size: u64) -> (r: Self)
        requires
            start + size <= u64::MAX,
        ensures
            r == (MemoryRegion { start, end: (start + size) as u64, used: 0 }),
            r.wf(),
    {
        MemoryRegion { start, end: start + size, used: 0 }
    }

    /// Takes `size` bytes aligned to `align` from the front of what is
    /// left.
    pub fn allocate(&mut self, size: u64, align: u64) -> (r: Option<u64>)
        requires
            old(self).wf(),
            align > 0,
        ensures
            (*final(self), r) == old(self).allocated(size as int, align as int),
            final(self).wf(),
            final(self).used >= old(self).used,
            r matches Some(addr) ==> addr % align == 0 && old(self).start + old(self).used <= addr
                && addr + size == final(self).start + final(self).used,
    {
        let current: u64 = self.start + self.used;
        let rem: u64 = current % align;
        let aligned: u64 = if rem == 0 {
            current
        } else {
            match current.checked_add(align - rem) {
                Some(a) => a,
                None => {
                    return None;
                },
            }
        };
        proof {
            lemma_align_up(current as int, align as int);
        }
        let fits = match aligned.checked_add(size) {
            Some(top) => top <= self.end,
            None => false,
        };
        if fits {
            self.used = aligned + size - self.start;
            if aligned == 0 {
                None
            } else {
                Some(aligned)
            }
        } else {
            None
        }
    }

    /// Whether a request for `size` bytes aligned to `align` would be
    /// given a block.
    pub open spec fn has_room(self, size: int, align: int) -> bool {
        self.allocated(size, align).1 is Some
    }

    /// Whether a request for `size` bytes aligned to `align` would be
    /// given a block. Nothing is taken.
    pub fn fits(&self, size: u64, align: u64) -> (r: bool)
        requires
            self.wf(),
            align > 0,
        ensures
            r == self.has_room(size as int, align as int),
    {
        let current: u64 = self.start + self.used;
        let rem: u64 = current % align;
        proof {
            lemma_align_up(current as int, align as int);
        }
        let aligned: u64 = if rem == 0 {
            current
        } else {
            match current.checked_add(align - rem) {
                Some(a) => a,
                None => {
                    return false;
                },
            }
        };
        match aligned.checked_add(size) {
            Some(top) => top <= self.end && aligned != 0,
            None => false,
        }
    }

    /// Bytes not yet handed out.
    pub fn available(&self) -> (r: u64)
        requires
            self.wf(),
        ensures
            r == self.end - (self.start + self.used),
    {
        self.end - (self.start + self.used)
    }

    /// Bytes of the whole span.
    pub fn size(&self) -> (r: u64)
        requires
            self.wf(),
        ensures
            r == self.end - self.start,
    {
        self.end - self.start
    }
}

/// `align_up` gives a multiple of `align` in `[x, x + align)`.
pub proof fn lemma_align_up(x: int, align: int)
    requires
        x >= 0,
        align > 0,
    ensures
        align_up(x, align) % align == 0,
        x <= align_up(x, align) < x + align,
{
    let r = x % align;
    if r != 0 {
        assert((x + align - r) % align == 0) by (nonlinear_arith)
            requires
                r == x % align,
                align > 0,
        ;
    }
}

/// Where the heap region of entry `r` begins: at the entry's base, or
/// at 8 MiB where the base lies below, moved up to a page boundary.
pub open spec fn region_start(r: crate::memory_map::MemoryRegion) -> int {
    align_up(
        if r.base < MIN_SAFE_ADDRESS {
            MIN_SAFE_ADDRESS as int
        } else {
            r.base as int
        },
        4096,
    )
}

/// Where the heap region of entry `r` ends: at the entry's end, or at the
/// last address there is where the entry reaches beyond it, moved down to
/// a page boundary.
pub open spec fn region_end(r: crate::memory_map::MemoryRegion) -> int {
    (if r.base + r.length > u64::MAX {
        u64::MAX as int
    } else {
        r.base + r.length
    }) / 4096 * 4096
}

/// The heap region that one entry of the memory map yields, if any: the
/// entry is usable, and between its start, moved up to a page boundary
/// at or above 8 MiB, and its end, moved down to a page boundary, lies a
/// page at least. The region is what lies between the two.
pub open spec fn heap_region(r: crate::memory_map::MemoryRegion) -> Option<MemoryRegion> {
    if r.region_type == MemoryRegionType::Usable && region_start(r) + MIN_REGION_SIZE
        <= region_end(r) {
        Some(MemoryRegion { start: region_start(r) as u64, end: region_end(r) as u64, used: 0 })
    } else {
        None
    }
}

/// A heap region lies within its entry and above 8 MiB, begins and ends
/// at page boundaries, holds a page at least, and nothing of it is used.
pub proof fn lemma_heap_region(r: crate::memory_map::MemoryRegion)
    ensures
        heap_region(r) matches Some(h) ==> {
            &&& h.wf()
            &&& h.used == 0
            &&& r.base <= h.start
            &&& MIN_SAFE_ADDRESS <= h.start
            &&& h.start + MIN_REGION_SIZE <= h.end
            &&& h.end <= r.base + r.length
            &&& h.start % 4096 == 0
            &&& h.end % 4096 == 0
        },
{
    let safe = if r.base < MIN_SAFE_ADDRESS {
        MIN_SAFE_ADDRESS as int
    } else {
        r.base as int
    };
    lemma_align_up(safe, 4096);
}

/// The heap regions that the first `n` entries of the map yield, in order;
/// once eight are there, further ones are passed over.
pub open spec fn heap_regions(map: Seq<crate::memory_map::MemoryRegion>, n: int) -> Seq<
    MemoryRegion,
>
    decreases n,
{
    if n <= 0 {
        Seq::empty()
    } else {
        let before = heap_regions(map, n - 1);
        match heap_region(map[n - 1]) {
            Some(r) => if before.len() < MAX_HEAP_REGIONS {
                before.push(r)
            } else {
                before
            },
            None => before,
        }
    }
}

/// Every region that a map yields is well formed, and there are at most
/// eight of them.
pub proof fn lemma_heap_regions(map: Seq<crate::memory_map::MemoryRegion>, n: int)
    ensures
        heap_regions(map, n).len() <= MAX_HEAP_REGIONS,
        forall|i: int| 0 <= i < heap_regions(map, n).len() ==> (#[trigger] heap_regions(map, n)[i]).wf(),
        total_size(heap_regions(map, n)) >= 0,
    decreases n,
{
    if n > 0 {
        lemma_heap_regions(map, n - 1);
        let before = heap_regions(map, n - 1);
        lemma_heap_region(map[n - 1]);
        match heap_region(map[n - 1]) {
            Some(r) => {
                if before.len() < MAX_HEAP_REGIONS {
                    assert(before.push(r).drop_last() =~= before);
                }
            },
            None => {},
        }
    }
}

/// More entries never yield fewer regions.
pub proof fn lemma_heap_regions_grow(map: Seq<crate::memory_map::MemoryRegion>, n: int, m: int)
    requires
        n <= m,
    ensures
        heap_regions(map, n).len() <= heap_regions(map, m).len(),
    decreases m - n,
{
    if n < m {
        lemma_heap_regions_grow(map, n, m - 1);
    }
}

/// Sum of the sizes of `regions`.
pub open spec fn total_size(regions: Seq<MemoryRegion>) -> int
    decreases regions.len(),
{
    if regions.len() == 0 {
        0
    } else {
        total_size(regions.drop_last()) + (regions.last().end - regions.last().start)
    }
}

/// Why the heap could not be set up.
#[derive(Debug, Copy, Clone, PartialEq, Eq, Structural)]
pub enum HeapInitError {
    /// No entry of the memory map yields a heap region.
    NoUsableMemory,
}

impl HeapInitError {
    pub fn message(&self) -> (r: &'static str)
        ensures
            r@ == "No usable memory for heap allocator"@,
    {
        "No usable memory for heap allocator"
    }
}

/// The mathematical state of the bump-region heap.
pub struct BumpState {
    /// The eight slots, filled from the front.
    pub regions: Seq<Option<MemoryRegion>>,
    /// The slot that served the last request.
    pub current: int,
    /// Bytes asked for in successful requests, modulo the word size.
    pub allocated: u64,
    /// Bytes of all regions together.
    pub available: u64,
}

impl BumpState {
    pub open spec fn wf(self) -> bool {
        &&& self.regions.len() == MAX_HEAP_REGIONS
        &&& 0 <= self.current < MAX_HEAP_REGIONS
        &&& forall|i: int|
            0 <= i < MAX_HEAP_REGIONS ==> (#[trigger] self.regions[i] matches Some(r) ==> r.wf())
    }

    /// Whether slot `i` holds a region with room for `size` bytes aligned
    /// to `align`.
    pub open spec fn has_room(self, i: int, size: int, align: int) -> bool {
        self.regions[i] matches Some(r) && r.has_room(size, align)
    }

    /// The first slot from `i` on that holds a region with room.
    pub open spec fn first_fit(self, i: int, size: int, align: int) -> Option<int>
        decreases MAX_HEAP_REGIONS - i,
    {
        if i >= MAX_HEAP_REGIONS || i < 0 {
            None
        } else if self.has_room(i, size, align) {
            Some(i)
        } else {
            self.first_fit(i + 1, size, align)
        }
    }

    /// State and result of a request: the block comes from the first
    /// region, in the order of the slots, that has room for it. Only that
    /// region's count of used bytes goes up, and it becomes the current
    /// one. Where no region has room nothing changes.
    pub open spec fn allocate(self, size: int, align: int) -> (BumpState, Option<u64>) {
        match self.first_fit(0, size, align) {
            Some(i) => (
                BumpState {
                    regions: self.regions.update(
                        i,
                        Some(self.regions[i].unwrap().allocated(size, align).0),
                    ),
                    current: i,
                    allocated: if self.allocated + size > u64::MAX {
                        (self.allocated + size - 0x1_0000_0000_0000_0000) as u64
                    } else {
                        (self.allocated + size) as u64
                    },
                    ..self
                },
                self.regions[i].unwrap().allocated(size, align).1,
            ),
            None => (self, None),
        }
    }
}

/// What the search for room finds: a slot with room before which no slot
/// has any, or that no slot has room.
pub proof fn lemma_first_fit(s: BumpState, i: int, size: int, align: int)
    requires
        0 <= i <= MAX_HEAP_REGIONS,
    ensures
        match s.first_fit(i, size, align) {
            Some(j) => i <= j < MAX_HEAP_REGIONS && s.has_room(j, size, align) && forall|k: int|
                i <= k < j ==> !s.has_room(k, size, align),
            None => forall|k: int| i <= k < MAX_HEAP_REGIONS ==> !s.has_room(k, size, align),
        },
    decreases MAX_HEAP_REGIONS - i,
{
    if i < MAX_HEAP_REGIONS && !s.has_room(i, size, align) {
        lemma_first_fit(s, i + 1, size, align);
    }
}

/// A request is given a block exactly when some region has room for it;
/// the block is aligned and lies within that region, behind what was used
/// of it, and no other region changes.
pub proof fn lemma_allocate_first_fit(s: BumpState, size: int, align: int)
    requires
        s.wf(),
        size >= 0,
        align > 0,
    ensures
        s.allocate(size, align).1 is Some <==> exists|k: int|
            0 <= k < MAX_HEAP_REGIONS && s.has_room(k, size, align),
        s.allocate(size, align).1 is None ==> s.allocate(size, align).0 == s,
        s.allocate(size, align).1 matches Some(addr) ==> {
            let i = s.allocate(size, align).0.current;
            &&& 0 <= i < MAX_HEAP_REGIONS
            &&& s.regions[i] matches Some(r) && addr as int % align == 0 && r.start + r.used
                <= addr && addr + size <= r.end
            &&& forall|k: int|
                0 <= k < MAX_HEAP_REGIONS && k != i ==> s.allocate(size, align).0.regions[k]
                    == s.regions[k]
            &&& forall|k: int| 0 <= k < i ==> !s.has_room(k, size, align)
        },
{
    lemma_first_fit(s, 0, size, align);
    match s.first_fit(0, size, align) {
        Some(i) => {
            let r = s.regions[i].unwrap();
            lemma_align_up(r.start + r.used, align);
        },
        None => {},
    }
}

pub struct BumpAllocator {
    regions: [Option<MemoryRegion>; 8],
    current_region: usize,
    total_allocated: u64,
    total_available: u64,
}

impl View for BumpAllocator {
    type V = BumpState;

    closed spec fn view(&self) -> BumpState {
        BumpState {
            regions: self.regions@,
            current: self.current_region as int,
            allocated: self.total_allocated,
            available: self.total_available,
        }
    }
}

impl BumpAllocator {
    #[verifier::type_invariant]
    spec fn inv(self) -> bool {
        &&& self.current_region < MAX_HEAP_REGIONS
        &&& forall|i: int|
            0 <= i < MAX_HEAP_REGIONS ==> (#[trigger] self.regions[i] matches Some(r) ==> r.wf())
    }

    /// A heap without regions: every request fails until `init`.
    pub fn new() -> (r: Self)
        ensures
            r@.wf(),
            r@.regions == Seq::new(8, |i: int| None::<MemoryRegion>),
            r@.current == 0,
            r@.allocated == 0,
            r@.available == 0,
    {
        let r = BumpAllocator {
            regions: [None; 8],
            current_region: 0,
            total_allocated: 0,
            total_available: 0,
        };
        assert(r@.regions =~= Seq::new(8, |i: int| None::<MemoryRegion>));
        r
    }

    /// Fills the slots from the memory map and returns how many regions
    /// were found. A map that yields no region is not accepted: with none
    /// nothing can ever be handed out. `init_heap` tells.
    pub fn init(&mut self, map: &MemoryMap) -> (count: usize)
        requires
            heap_regions(map@, map@.len() as int).len() > 0,
        ensures
            final(self)@.wf(),
            ({
                let found = heap_regions(map@, map@.len() as int);
                &&& count == found.len()
                &&& 0 < count <= MAX_HEAP_REGIONS
                &&& forall|i: int|
                    0 <= i < found.len() ==> final(self)@.regions[i] == Some(found[i])
                &&& forall|i: int|
                    found.len() <= i < MAX_HEAP_REGIONS ==> final(self)@.regions[i] == old(
                        self,
                    )@.regions[i]
                &&& final(self)@.available == (if total_size(found) > u64::MAX {
                    u64::MAX
                } else {
                    total_size(found) as u64
                })
                &&& final(self)@.current == old(self)@.current
                &&& final(self)@.allocated == old(self)@.allocated
            }),
    {
        proof {
            use_type_invariant(&*self);
            lemma_heap_regions(map@, map@.len() as int);
        }
        let mut region_count: usize = 0;
        let mut usable_memory: u64 = 0;
        let n: usize = map.len();
        let mut i: usize = 0;
        while i < n
            invariant
                0 <= i <= n,
                n == map@.len(),
                self.current_region == old(self).current_region,
                self.current_region < MAX_HEAP_REGIONS,
                self.total_allocated == old(self).total_allocated,
                region_count == heap_regions(map@, i as int).len(),
                region_count <= MAX_HEAP_REGIONS,
                forall|j: int|
                    0 <= j < region_count ==> self.regions[j] == Some(
                        heap_regions(map@, i as int)[j],
                    ),
                forall|j: int|
                    region_count <= j < MAX_HEAP_REGIONS ==> self.regions[j] == old(
                        self,
                    ).regions[j],
                forall|j: int|
                    0 <= j < MAX_HEAP_REGIONS ==> (#[trigger] self.regions[j] matches Some(r)
                        ==> r.wf()),
                usable_memory == (if total_size(heap_regions(map@, i as int)) > u64::MAX {
                    u64::MAX
                } else {
                    total_size(heap_regions(map@, i as int)) as u64
                }),
            decreases n - i,
        {
            let entry = map.region(i);
            let ghost before = heap_regions(map@, i as int);
            proof {
                lemma_heap_regions(map@, i as int);
                lemma_heap_regions(map@, i + 1);
            }
            match heap_region_of(&entry) {
                Some(region) => {
                    if region_count < 8 {
                        self.regions[region_count] = Some(region);
                        usable_memory = usable_memory.saturating_add(region.end - region.start);
                        region_count = region_count + 1;
                        proof {
                            assert(before.push(region).drop_last() =~= before);
                        }
                    }
                },
                None => {},
            }
            i = i + 1;
        }
        self.total_available = usable_memory;
        region_count
    }

    /// Hands out `size` bytes aligned to `align` from the first region,
    /// in the order of the slots, that has room for them.
    pub fn allocate(&mut self, size: usize, align: usize) -> (r: Option<u64>)
        requires
            align > 0,
        ensures
            (final(self)@, r) == old(self)@.allocate(size as int, align as int),
            old(self)@.wf(),
            final(self)@.wf(),
    {
        proof {
            use_type_invariant(&*self);
        }
        let mut i: usize = 0;
        while i < 8
            invariant
                0 <= i <= 8,
                align > 0,
                *self == *old(self),
                old(self)@.wf(),
                self.current_region < MAX_HEAP_REGIONS,
                forall|j: int|
                    0 <= j < MAX_HEAP_REGIONS ==> (#[trigger] self.regions[j] matches Some(r)
                        ==> r.wf()),
                self@.first_fit(0, size as int, align as int) == self@.first_fit(
                    i as int,
                    size as int,
                    align as int,
                ),
            decreases 8 - i,
        {
            if let Some(region) = self.regions[i] {
                if region.fits(size as u64, align as u64) {
                    let mut region = region;
                    let got = region.allocate(size as u64, align as u64);
                    self.regions[i] = Some(region);
                    self.current_region = i;
                    self.total_allocated = self.total_allocated.wrapping_add(size as u64);
                    assert(self@.regions =~= old(self)@.regions.update(
                        i as int,
                        Some(region),
                    ));
                    return got;
                }
            }
            i = i + 1;
        }
        None
    }

    /// Takes nothing back.
    pub fn dealloc(&mut self, addr: u64, size: usize, align: usize)
        ensures
            final(self)@ == old(self)@,
    {
    }

    /// Bytes handed out, bytes left and bytes in all: `(allocated, free,
    /// available)`, where `free` is `available - allocated`, or zero if
    /// more was counted than there is.
    pub fn stats(&self) -> (r: (u64, u64, u64))
        ensures
            r.0 == self@.allocated,
            r.2 == self@.available,
            r.1 == (if self@.available >= self@.allocated {
                self@.available - self@.allocated
            } else {
                0
            }),
    {
        let allocated = self.total_allocated;
        let available = self.total_available;
        let free = available.saturating_sub(allocated);
        (allocated, free, available)
    }

    /// The region in slot `i`, if the slot is filled.
    pub fn region(&self, i: usize) -> (r: Option<MemoryRegion>)
        ensures
            r == (if i < MAX_HEAP_REGIONS {
                self@.regions[i as int]
            } else {
                None
            }),
            self@.wf(),
    {
        proof {
            use_type_invariant(self);
        }
        if i < 8 {
            self.regions[i]
        } else {
            None
        }
    }
}

/// The heap region that `entry` yields, if any. It lies within the
/// entry.
pub fn heap_region_of(entry: &crate::memory_map::MemoryRegion) -> (r: Option<MemoryRegion>)
    ensures
        r == heap_region(*entry),
        r matches Some(region) ==> region.wf() && region.used == 0 && entry.base <= region.start
            && region.end <= entry.base + entry.length,
{
    proof {
        lemma_heap_region(*entry);
    }
    if entry.region_type != MemoryRegionType::Usable {
        return None;
    }
    let limit: u64 = entry.base.saturating_add(entry.length);
    let end: u64 = (limit / 4096) * 4096;
    let safe_start: u64 = if entry.base < MIN_SAFE_ADDRESS {
        MIN_SAFE_ADDRESS
    } else {
        entry.base
    };
    let rem: u64 = safe_start % 4096;
    let start: u64 = if rem == 0 {
        safe_start
    } else {
        match safe_start.checked_add(4096 - rem) {
            Some(v) => v,
            None => {
                return None;
            },
        }
    };
    if end >= MIN_REGION_SIZE && start <= end - MIN_REGION_SIZE {
        Some(MemoryRegion { start, end, used: 0 })
    } else {
        None
    }
}

/// Whether `map` yields a heap region.
pub fn has_heap_region(map: &MemoryMap) -> (r: bool)
    ensures
        r == (heap_regions(map@, map@.len() as int).len() > 0),
{
    let n: usize = map.len();
    let mut i: usize = 0;
    while i < n
        invariant
            0 <= i <= n,
            n == map@.len(),
            heap_regions(map@, i as int).len() == 0,
        decreases n - i,
    {
        let entry = map.region(i);
        if heap_region_of(&entry).is_some() {
            proof {
                lemma_heap_regions_grow(map@, i + 1, n as int);
            }
            return true;
        }
        i = i + 1;
    }
    false
}

/// Sets `heap` up from the memory map and says how many regions it has.
/// A map that yields no region is an error, after which the kernel
/// cannot go on; the heap is then left as it was.
pub fn init_heap(heap: &mut BumpAllocator, map: &MemoryMap) -> (res: Result<usize, HeapInitError>)
    ensures
        heap_regions(map@, map@.len() as int).len() == 0 ==> res == Err::<usize, HeapInitError>(
            HeapInitError::NoUsableMemory,
        ) && *final(heap) == *old(heap),
        heap_regions(map@, map@.len() as int).len() > 0 ==> {
            let found = heap_regions(map@, map@.len() as int);
            &&& res == Ok::<usize, HeapInitError>(found.len() as usize)
            &&& final(heap)@.wf()
            &&& forall|i: int| 0 <= i < found.len() ==> final(heap)@.regions[i] == Some(found[i])
            &&& forall|i: int|
                found.len() <= i < MAX_HEAP_REGIONS ==> final(heap)@.regions[i] == old(
                    heap,
                )@.regions[i]
        },
{
    if !has_heap_region(map) {
        return Err(HeapInitError::NoUsableMemory);
    }
    Ok(heap.init(map))
}

/// Usage of the heap: `(allocated, free, available)`.
pub fn heap_stats(heap: &BumpAllocator) -> (r: (u64, u64, u64))
    ensures
        r.0 == heap@.allocated,
        r.2 == heap@.available,
        r.1 == (if heap@.available >= heap@.allocated {
            heap@.available - heap@.allocated
        } else {
            0
        }),
{
    heap.stats()
}

} // verus!
