//! The paging-backed heap: a window of virtual addresses whose pages are
//! mapped to fresh frames as the cursor moves through it.

use vstd::prelude::*;
use crate::allocator::HeapInitError;
use crate::frame_allocator::{FrameState, PhysicalFrameAllocator};
use crate::memory_map::MemoryMap;
use crate::page_table::PageTableFlags;
use crate::page_table_manager::{PageTableManager, PagingState};

verus! {

/// Size of one page in bytes.
pub const PAGE_SIZE: u64 = 4096;

/// Where the kernel sees physical memory.
pub const HIGHER_HALF_OFFSET: u64 = 0xFFFF_8000_0000_0000;

/// First address of the heap window.
pub const HEAP_START: u64 = 0xFFFF_FF00_0000_0000;

/// Size of the heap window: 64 MiB.
pub const HEAP_SIZE: u64 = 0x400_0000;

/// The mathematical state of the heap.
pub struct HeapState {
    pub frames: FrameState,
    pub paging: Option<PagingState>,
    /// First address not yet given out.
    pub cursor: u64,
    pub heap_start: u64,
    pub heap_end: u64,
    pub initialized: bool,
}

/// Maps pages `i` to `n - 1` of the run that starts at `start`, each to a
/// fresh frame with kernel flags, and says whether all of them went in. The
/// run stops at the first page for which no frame is left or the mapping
/// fails; what was mapped before stays.
pub open spec fn map_pages(paging: PagingState, frames: FrameState, start: u64, i: int, n: int) -> (
    PagingState,
    FrameState,
    bool,
)
    decreases n - i,
{
    if i >= n {
        (paging, frames, true)
    } else {
        match frames.allocate() {
            (taken, None) => (paging, taken, false),
            (taken, Some(phys)) => {
                let (tables, rest, r) = paging.map(
                    taken,
                    (start + i * 4096) as u64,
                    phys,
                    PageTableFlags(3),
                );
                if r is Ok {
                    map_pages(tables, rest, start, i + 1, n)
                } else {
                    (tables, rest, false)
                }
            },
        }
    }
}

impl HeapState {
    /// The cursor lies inside the window.
    pub open spec fn wf(self) -> bool {
        self.heap_start <= self.cursor <= self.heap_end
    }

    /// Whether a request for `num_pages` pages is turned down before
    /// anything changes: the heap is not ready, or the pages do not fit
    /// between the cursor and the end of the window.
    pub open spec fn refuses(self, num_pages: int) -> bool {
        !self.initialized || self.paging is None || self.cursor + num_pages * 4096
            > self.heap_end
    }

    /// State and result of a request for `num_pages` pages.
    pub open spec fn allocate_pages(self, num_pages: int) -> (HeapState, Option<u64>) {
        if self.refuses(num_pages) {
            (self, None)
        } else {
            let (tables, rest, done) = map_pages(
                self.paging.unwrap(),
                self.frames,
                self.cursor,
                0,
                num_pages,
            );
            (
                HeapState {
                    frames: rest,
                    paging: Some(tables),
                    cursor: (self.cursor + num_pages * 4096) as u64,
                    ..self
                },
                if done && self.cursor != 0 {
                    Some(self.cursor)
                } else {
                    None
                },
            )
        }
    }
}

/// Number of pages that hold `size` bytes.
pub open spec fn pages_for(size: int) -> int {
    (size + 4095) / 4096
}

/// Maps `num_pages` pages from `start` on, each to a fresh frame, until
/// all are in or one fails.
fn map_run(
    manager: &mut PageTableManager,
    frames: &mut PhysicalFrameAllocator,
    start: u64,
    num_pages: usize,
) -> (done: bool)
    requires
        start + num_pages * 4096 <= u64::MAX,
    ensures
        (final(manager)@, final(frames)@, done) == map_pages(
            old(manager)@,
            old(frames)@,
            start,
            0,
            num_pages as int,
        ),
{
    let mut i: usize = 0;
    while i < num_pages
        invariant
            0 <= i <= num_pages,
            start + num_pages * 4096 <= u64::MAX,
            map_pages(old(manager)@, old(frames)@, start, 0, num_pages as int) == map_pages(
                manager@,
                frames@,
                start,
                i as int,
                num_pages as int,
            ),
        decreases num_pages - i,
    {
        let virt_addr: u64 = start + (i as u64) * 4096;
        let phys_addr = match frames.allocate_frame() {
            Some(addr) => addr,
            None => {
                return false;
            },
        };
        let mapped = manager.map(virt_addr, phys_addr, PageTableFlags::kernel_flags(), frames);
        if mapped.is_err() {
            return false;
        }
        i = i + 1;
    }
    true
}

/// Number of pages that hold `size` bytes.
pub fn pages_needed(size: usize) -> (r: usize)
    ensures
        r == pages_for(size as int),
{
    if size % 4096 != 0 {
        size / 4096 + 1
    } else {
        size / 4096
    }
}

pub struct PagingAllocator {
    frame_allocator: PhysicalFrameAllocator,
    page_table_manager: Option<PageTableManager>,
    next_virt_addr: u64,
    heap_start: u64,
    heap_end: u64,
    initialized: bool,
}

impl View for PagingAllocator {
    type V = HeapState;

    closed spec fn view(&self) -> HeapState {
        HeapState {
            frames: self.frame_allocator@,
            paging: match self.page_table_manager {
                Some(m) => Some(m@),
                None => None,
            },
            cursor: self.next_virt_addr,
            heap_start: self.heap_start,
            heap_end: self.heap_end,
            initialized: self.initialized,
        }
    }
}

impl PagingAllocator {
    /// A heap that is not ready yet: every request fails until `init`.
    /// It has no tables and an empty window, and its frame allocator is
    /// new: no bit set, nothing tracked, nothing handed out.
    pub fn new() -> (r: Self)
        ensures
            r@ == (HeapState {
                frames: FrameState {
                    used: Seq::new(crate::frame_allocator::MAX_FRAMES as nat, |f: int| false),
                    cursor: 0,
                    total_frames: 0,
                    allocated: 0,
                },
                paging: None,
                cursor: 0,
                heap_start: 0,
                heap_end: 0,
                initialized: false,
            }),
            r@.wf(),
            r@.frames.wf(),
    {
        let frame_allocator = PhysicalFrameAllocator::new();
        PagingAllocator {
            frame_allocator,
            page_table_manager: None,
            next_virt_addr: 0,
            heap_start: 0,
            heap_end: 0,
            initialized: false,
        }
    }

    /// Makes the heap ready: reads the memory map into the frame
    /// allocator, takes the root table from `cr3` and places the cursor at
    /// the start of the window. A map that leaves no frame free is not
    /// accepted; `init_paging_heap` tells.
    pub fn init(&mut self, memory_map: &MemoryMap, cr3: u64)
        requires
            crate::frame_allocator::tracked_frames(memory_map@) > 0,
        ensures
            final(self)@.initialized,
            final(self)@.wf(),
            final(self)@.heap_start == HEAP_START,
            final(self)@.heap_end == HEAP_START + HEAP_SIZE,
            final(self)@.cursor == HEAP_START,
            final(self)@.paging matches Some(p) && p.wf() && p.root == cr3
                & crate::page_table::ADDRESS_MASK && p.offset == HIGHER_HALF_OFFSET && p.words
                == Map::<u64, u64>::empty() && p.journal == Seq::<(u64, u64)>::empty()
                && p.flushes == Seq::<u64>::empty(),
            final(self)@.frames.wf(),
            final(self)@.frames.used == crate::frame_allocator::bitmap_of(memory_map@),
            final(self)@.frames.total_frames == crate::frame_allocator::tracked_frames(
                memory_map@,
            ),
            final(self)@.frames.cursor == old(self)@.frames.cursor,
            final(self)@.frames.allocated == 0,
            final(self)@.frames.accounted(),
    {
        self.frame_allocator.init(memory_map);
        self.page_table_manager = Some(PageTableManager::new(cr3, HIGHER_HALF_OFFSET));
        self.heap_start = HEAP_START;
        self.heap_end = HEAP_START + HEAP_SIZE;
        self.next_virt_addr = self.heap_start;
        self.initialized = true;
    }

    /// Gives out the next `num_pages` pages of the window, each mapped to a
    /// fresh frame, and returns the address of the first. A request that
    /// does not fit in what is left of the window fails and changes
    /// nothing. Where the frames run out on the way, the request fails
    /// too, but the cursor has moved and the pages mapped so far stay.
    pub fn allocate_pages(&mut self, num_pages: usize) -> (r: Option<u64>)
        ensures
            (final(self)@, r) == old(self)@.allocate_pages(num_pages as int),
            final(self)@.cursor >= old(self)@.cursor,
            old(self)@.cursor + num_pages * 4096 > old(self)@.heap_end ==> r is None
                && final(self)@ == old(self)@,
            old(self)@.wf() ==> final(self)@.wf(),
    {
        if !self.initialized {
            return None;
        }
        let bytes: u64 = match (num_pages as u64).checked_mul(4096) {
            Some(b) => b,
            None => {
                return None;
            },
        };
        let virt_start: u64 = self.next_virt_addr;
        let virt_end: u64 = match virt_start.checked_add(bytes) {
            Some(e) => e,
            None => {
                return None;
            },
        };
        if virt_end > self.heap_end {
            return None;
        }
        let mut manager = match self.page_table_manager.take() {
            Some(m) => m,
            None => {
                return None;
            },
        };
        self.next_virt_addr = virt_end;
        let done = map_run(&mut manager, &mut self.frame_allocator, virt_start, num_pages);
        self.page_table_manager = Some(manager);
        if done && virt_start != 0 {
            Some(virt_start)
        } else {
            None
        }
    }

    /// Gives out enough whole pages for `size` bytes. Every page is aligned
    /// to 4096 bytes, whatever `align` asks for.
    pub fn allocate(&mut self, size: usize, align: usize) -> (r: Option<u64>)
        ensures
            (final(self)@, r) == old(self)@.allocate_pages(pages_for(size as int)),
            final(self)@.cursor >= old(self)@.cursor,
            old(self)@.wf() ==> final(self)@.wf(),
    {
        let num_pages: usize = pages_needed(size);
        self.allocate_pages(num_pages)
    }

    /// Takes nothing back: pages stay mapped and the cursor stays.
    pub fn dealloc(&mut self, addr: u64, size: usize, align: usize)
        ensures
            final(self)@ == old(self)@,
    {
    }

    /// The leaf entry that translates `virt_addr`, if the heap is ready
    /// and the address is mapped.
    pub fn translate(&self, virt_addr: u64) -> (r: Option<crate::page_table::PageTableEntry>)
        ensures
            r == (match self@.paging {
                Some(p) => p.walk(virt_addr),
                None => None,
            }),
    {
        match &self.page_table_manager {
            Some(m) => m.walk(virt_addr),
            None => None,
        }
    }

    /// The first table on the way down to `virt_addr` whose entry for it
    /// is not known to the heap; it has to be read in with `load_table`
    /// before the page is mapped or looked up. `None` before `init`.
    pub fn unknown_table(&self, virt_addr: u64) -> (r: Option<u64>)
        ensures
            r == (match self@.paging {
                Some(p) => p.unknown_table(virt_addr),
                None => None,
            }),
            r matches Some(t) ==> crate::page_table_manager::table_address(t),
    {
        match &self.page_table_manager {
            Some(m) => m.unknown_table(virt_addr),
            None => None,
        }
    }

    /// Whether the tables on the way down to `virt_addr` are sound: they
    /// are different frames, and the frame allocator hands out none of
    /// them. `false` before `init`.
    pub fn path_is_reserved(&self, virt_addr: u64) -> (r: bool)
        ensures
            r == (match self@.paging {
                Some(p) => crate::page_table_manager::path_reserved(p, self@.frames, virt_addr),
                None => false,
            }),
    {
        match &self.page_table_manager {
            Some(m) => m.path_is_reserved(virt_addr, &self.frame_allocator),
            None => false,
        }
    }

    /// Takes note of the table at `table` as it stands in memory; nothing
    /// happens before `init`.
    pub fn load_table(&mut self, table: u64, contents: &crate::page_table::PageTable)
        requires
            crate::page_table_manager::table_address(table),
        ensures
            final(self)@.frames == old(self)@.frames,
            final(self)@.cursor == old(self)@.cursor,
            final(self)@.heap_start == old(self)@.heap_start,
            final(self)@.heap_end == old(self)@.heap_end,
            final(self)@.initialized == old(self)@.initialized,
            old(self)@.paging is None ==> final(self)@.paging is None,
            old(self)@.paging matches Some(before) ==> (final(self)@.paging matches Some(after)
                && after.root == before.root && after.journal == before.journal && after.flushes
                == before.flushes && forall|i: int|
                0 <= i < 512 ==> after.entry(table, i) == contents.entries[i] && after.knows(
                    table,
                    i,
                )),
    {
        match self.page_table_manager.take() {
            Some(m) => {
                let mut manager = m;
                manager.load_table(table, contents);
                self.page_table_manager = Some(manager);
            },
            None => {},
        }
    }

    /// Hands over the table words written since the last call, oldest
    /// first: physical address and value.
    pub fn take_table_writes(&mut self) -> (r: Vec<(u64, u64)>)
        ensures
            r@ == (match old(self)@.paging {
                Some(p) => p.journal,
                None => Seq::<(u64, u64)>::empty(),
            }),
            final(self)@ == (HeapState {
                paging: match old(self)@.paging {
                    Some(p) => Some(PagingState { journal: Seq::<(u64, u64)>::empty(), ..p }),
                    None => None,
                },
                ..old(self)@
            }),
    {
        match self.page_table_manager.take() {
            Some(m) => {
                let mut manager = m;
                let out = manager.take_writes();
                self.page_table_manager = Some(manager);
                out
            },
            None => Vec::new(),
        }
    }

    /// Hands over the addresses whose translation has to be dropped,
    /// oldest first.
    pub fn take_flushes(&mut self) -> (r: Vec<u64>)
        ensures
            r@ == (match old(self)@.paging {
                Some(p) => p.flushes,
                None => Seq::<u64>::empty(),
            }),
            final(self)@ == (HeapState {
                paging: match old(self)@.paging {
                    Some(p) => Some(PagingState { flushes: Seq::<u64>::empty(), ..p }),
                    None => None,
                },
                ..old(self)@
            }),
    {
        match self.page_table_manager.take() {
            Some(m) => {
                let mut manager = m;
                let out = manager.take_flushes();
                self.page_table_manager = Some(manager);
                out
            },
            None => Vec::new(),
        }
    }

    /// The frame allocator behind the heap.
    pub fn frames(&self) -> (r: &PhysicalFrameAllocator)
        ensures
            r@ == self@.frames,
    {
        &self.frame_allocator
    }

    /// First address not yet given out.
    pub fn cursor(&self) -> (r: u64)
        ensures
            r == self@.cursor,
    {
        self.next_virt_addr
    }

    pub fn heap_start(&self) -> (r: u64)
        ensures
            r == self@.heap_start,
    {
        self.heap_start
    }

    pub fn heap_end(&self) -> (r: u64)
        ensures
            r == self@.heap_end,
    {
        self.heap_end
    }

    pub fn is_initialized(&self) -> (r: bool)
        ensures
            r == self@.initialized,
    {
        self.initialized
    }
}

/// Makes `allocator` ready from the memory map and the root table in
/// use, and says how many frames it tracks. A map that leaves no frame
/// free is an error, after which the kernel cannot go on; the allocator
/// is then left as it was.
pub fn init_paging_heap(allocator: &mut PagingAllocator, memory_map: &MemoryMap, cr3: u64) -> (r:
    Result<usize, HeapInitError>)
    ensures
        crate::frame_allocator::tracked_frames(memory_map@) <= 0 ==> r == Err::<
            usize,
            HeapInitError,
        >(HeapInitError::NoUsableMemory) && *final(allocator) == *old(allocator),
        crate::frame_allocator::tracked_frames(memory_map@) > 0 ==> {
            &&& r == Ok::<usize, HeapInitError>(
                crate::frame_allocator::tracked_frames(memory_map@) as usize,
            )
            &&& final(allocator)@.initialized
            &&& final(allocator)@.wf()
            &&& final(allocator)@.cursor == HEAP_START
            &&& final(allocator)@.heap_end == HEAP_START + HEAP_SIZE
            &&& final(allocator)@.frames.used == crate::frame_allocator::bitmap_of(memory_map@)
            &&& final(allocator)@.frames.total_frames == crate::frame_allocator::tracked_frames(
                memory_map@,
            )
            &&& final(allocator)@.frames.accounted()
        },
{
    if !PhysicalFrameAllocator::has_usable_frame(memory_map) {
        return Err(HeapInitError::NoUsableMemory);
    }
    allocator.init(memory_map, cr3);
    Ok(allocator.frames().total_frames())
}

} // verus!
