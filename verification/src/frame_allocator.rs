//! Physical frame allocator: a bitmap over the first 65536 frames of physical
//! memory, one bit per 4 KiB frame. A set bit means "in use or not there".

use vstd::prelude::*;
use crate::bits::{word_bit, lemma_set_bit, lemma_clear_bit, lemma_constant_words};
use crate::memory_map::{MemoryMap, MemoryRegion, MemoryRegionType};

verus! {

/// Size of one physical frame in bytes.
pub const FRAME_SIZE: u64 = 4096;

/// Number of frames the bitmap covers (256 MiB of physical memory).
pub const MAX_FRAMES: usize = 65536;

/// Number of 64-bit words in the bitmap.
pub const BITMAP_WORDS: usize = 1024;

/// First frame that is ever handed out: everything below 8 MiB stays with
/// the boot loader and the kernel image.
pub const SAFE_START_FRAME: usize = 2048;

/// The mathematical state of the allocator.
pub struct FrameState {
    /// `used[f]` holds when frame `f` is in use or not backed by usable RAM.
    pub used: Seq<bool>,
    /// Frame index at which the next search starts.
    pub cursor: int,
    /// Frames found in usable regions at initialisation.
    pub total_frames: int,
    /// Frames handed out and not taken back.
    pub allocated: int,
}

/// Number of `true` entries of `s`.
pub open spec fn count_true(s: Seq<bool>) -> nat
    decreases s.len(),
{
    if s.len() == 0 {
        0
    } else {
        count_true(s.drop_last()) + if s.last() { 1nat } else { 0nat }
    }
}

/// Changing one entry changes the count by that entry's difference.
pub proof fn lemma_count_true_update(s: Seq<bool>, i: int, b: bool)
    requires
        0 <= i < s.len(),
    ensures
        count_true(s.update(i, b)) + (if s[i] { 1int } else { 0int }) == count_true(s) + (if b { 1int } else { 0int }),
    decreases s.len(),
{
    let t = s.update(i, b);
    if i == s.len() - 1 {
        assert(t.drop_last() =~= s.drop_last());
    } else {
        lemma_count_true_update(s.drop_last(), i, b);
        assert(t.drop_last() =~= s.drop_last().update(i, b));
    }
}

/// The count never exceeds the length.
pub proof fn lemma_count_true_bound(s: Seq<bool>)
    ensures
        count_true(s) <= s.len(),
    decreases s.len(),
{
    if s.len() > 0 {
        lemma_count_true_bound(s.drop_last());
    }
}

/// The first frame of `region` that the allocator tracks: the first
/// frame that begins at or after the region's base, or the first frame
/// above the safety threshold where that lies below it.
pub open spec fn tracked_first(region: MemoryRegion) -> int {
    if (region.base as int + 4095) / 4096 < SAFE_START_FRAME as int {
        SAFE_START_FRAME as int
    } else {
        (region.base as int + 4095) / 4096
    }
}

/// The frame after the last frame that lies wholly within `region` and
/// within the bitmap.
pub open spec fn tracked_end(region: MemoryRegion) -> int {
    let end = (region.base as int + region.length as int) / 4096;
    if end < MAX_FRAMES as int {
        end
    } else {
        MAX_FRAMES as int
    }
}

/// Whether frame `f` is tracked on account of `region`. Regions that are
/// not usable track nothing.
pub open spec fn region_tracks(region: MemoryRegion, f: int) -> bool {
    region.region_type == MemoryRegionType::Usable && tracked_first(region) <= f < tracked_end(region)
}

/// A frame is tracked on account of a region exactly when the region is
/// usable and the whole frame lies within it, at or above the safety
/// threshold and within the bitmap.
pub proof fn lemma_region_tracks(region: MemoryRegion, f: int)
    ensures
        region_tracks(region, f) <==> (region.region_type == MemoryRegionType::Usable
            && region.base <= f * 4096 && (f + 1) * 4096 <= region.base + region.length
            && SAFE_START_FRAME <= f < MAX_FRAMES),
{
}

/// Whether one of the first `n` regions tracks frame `f`.
pub open spec fn tracked_by_any(regions: Seq<MemoryRegion>, n: int, f: int) -> bool {
    exists|i: int| 0 <= i < n && #[trigger] region_tracks(regions[i], f)
}

/// One more region tracks what it tracks itself and what the others did.
pub proof fn lemma_tracked_by_any_step(regions: Seq<MemoryRegion>, n: int, f: int)
    requires
        0 <= n,
    ensures
        tracked_by_any(regions, n + 1, f) == (tracked_by_any(regions, n, f) || region_tracks(
            regions[n],
            f,
        )),
{
    if tracked_by_any(regions, n + 1, f) {
        let i = choose|i: int| 0 <= i < n + 1 && #[trigger] region_tracks(regions[i], f);
        if i < n {
            assert(tracked_by_any(regions, n, f));
        }
    }
    if tracked_by_any(regions, n, f) {
        let i = choose|i: int| 0 <= i < n && #[trigger] region_tracks(regions[i], f);
        assert(0 <= i < n + 1 && region_tracks(regions[i], f));
    }
    if region_tracks(regions[n], f) {
        assert(0 <= n < n + 1 && region_tracks(regions[n], f));
    }
}

/// The bitmap that the memory map `regions` asks for: a frame is free
/// exactly when it lies wholly within a usable region, at or above the
/// safety threshold and within the bitmap.
pub open spec fn bitmap_of(regions: Seq<MemoryRegion>) -> Seq<bool> {
    Seq::new(MAX_FRAMES as nat, |f: int| !tracked_by_any(regions, regions.len() as int, f))
}

/// Number of frames that the memory map `regions` leaves free. A frame
/// that several regions cover counts once.
pub open spec fn tracked_frames(regions: Seq<MemoryRegion>) -> int {
    MAX_FRAMES - count_true(bitmap_of(regions))
}

/// The count is the length exactly when every entry is `true`.
pub proof fn lemma_count_true_full(s: Seq<bool>)
    ensures
        count_true(s) == s.len() <==> forall|i: int| 0 <= i < s.len() ==> s[i],
    decreases s.len(),
{
    if s.len() > 0 {
        lemma_count_true_full(s.drop_last());
        lemma_count_true_bound(s.drop_last());
        if count_true(s) == s.len() {
            assert forall|i: int| 0 <= i < s.len() implies s[i] by {
                if i < s.len() - 1 {
                    assert(s.drop_last()[i]);
                }
            }
        }
        if forall|i: int| 0 <= i < s.len() ==> s[i] {
            assert forall|i: int| 0 <= i < s.drop_last().len() implies s.drop_last()[i] by {
                assert(s[i]);
            }
        }
    }
}

/// The bitmap that a memory map asks for, with nothing handed out, is
/// accounted for: the bits set are those of the frames that the map did
/// not leave free.
pub proof fn lemma_bitmap_accounted(regions: Seq<MemoryRegion>, cursor: int)
    ensures
        (FrameState {
            used: bitmap_of(regions),
            cursor,
            total_frames: tracked_frames(regions),
            allocated: 0,
        }).accounted(),
{
    lemma_count_true_bound(bitmap_of(regions));
}

/// A memory map leaves a frame free exactly when one of its usable
/// regions holds a whole frame above the threshold and within the bitmap.
pub proof fn lemma_tracked_frames(regions: Seq<MemoryRegion>)
    ensures
        0 <= tracked_frames(regions) <= MAX_FRAMES,
        tracked_frames(regions) > 0 <==> exists|i: int|
            0 <= i < regions.len() && (#[trigger] regions[i]).region_type
                == MemoryRegionType::Usable && tracked_first(regions[i]) < tracked_end(regions[i]),
{
    let used = bitmap_of(regions);
    lemma_count_true_bound(used);
    lemma_count_true_full(used);
    if tracked_frames(regions) > 0 {
        let f = choose|f: int| 0 <= f < used.len() && !used[f];
        assert(tracked_by_any(regions, regions.len() as int, f));
        let i = choose|i: int| 0 <= i < regions.len() && #[trigger] region_tracks(regions[i], f);
        assert(regions[i].region_type == MemoryRegionType::Usable && tracked_first(regions[i])
            < tracked_end(regions[i]));
    }
    if exists|i: int|
        0 <= i < regions.len() && (#[trigger] regions[i]).region_type == MemoryRegionType::Usable
            && tracked_first(regions[i]) < tracked_end(regions[i]) {
        let i = choose|i: int|
            0 <= i < regions.len() && (#[trigger] regions[i]).region_type
                == MemoryRegionType::Usable && tracked_first(regions[i]) < tracked_end(regions[i]);
        let f = tracked_first(regions[i]);
        assert(region_tracks(regions[i], f));
        assert(0 <= f < MAX_FRAMES);
        assert(!used[f]);
    }
}

impl FrameState {
    /// The bitmap covers all frames, the cursor points into it, and the
    /// counters fit their machine words.
    pub open spec fn wf(self) -> bool {
        &&& self.used.len() == MAX_FRAMES
        &&& 0 <= self.cursor < MAX_FRAMES
        &&& 0 <= self.total_frames <= usize::MAX
        &&& 0 <= self.allocated <= usize::MAX
    }

    /// The frame index looked at in step `k` of a search.
    pub open spec fn probe(self, k: int) -> int {
        (self.cursor + k) % (MAX_FRAMES as int)
    }

    /// The first free frame met from step `k` on, going round the bitmap once.
    pub open spec fn scan(self, k: int) -> Option<int>
        decreases MAX_FRAMES - k,
    {
        if k >= MAX_FRAMES || k < 0 {
            None
        } else if !self.used[self.probe(k)] {
            Some(self.probe(k))
        } else {
            self.scan(k + 1)
        }
    }

    /// The frame that the next allocation hands out.
    pub open spec fn next_free(self) -> Option<int> {
        self.scan(0)
    }

    /// Number of set bits.
    pub open spec fn used_count(self) -> nat {
        count_true(self.used)
    }

    /// Number of clear bits: the frames that can be handed out.
    pub open spec fn free_count(self) -> int {
        MAX_FRAMES - self.used_count()
    }

    /// State and result of one allocation.
    pub open spec fn allocate(self) -> (FrameState, Option<u64>) {
        match self.next_free() {
            Some(f) => (
                FrameState {
                    used: self.used.update(f, true),
                    cursor: (f + 1) % (MAX_FRAMES as int),
                    total_frames: self.total_frames,
                    allocated: if self.allocated == usize::MAX { 0 } else { self.allocated + 1 },
                },
                Some((f * 4096) as u64),
            ),
            None => (self, None),
        }
    }

    /// Whether giving back the frame that holds `addr` changes anything:
    /// the frame lies within the bitmap and is in use, and some frame has
    /// been handed out. A frame that is already free is not freed again,
    /// and while nothing is handed out the frames in use are those that
    /// are not there to be handed out.
    pub open spec fn frees(self, addr: u64) -> bool {
        addr as int / 4096 < MAX_FRAMES && self.used[addr as int / 4096] && self.allocated > 0
    }

    /// State after giving back the frame that holds `addr`: its bit is
    /// cleared and the counter goes down by one, or nothing changes.
    pub open spec fn free(self, addr: u64) -> FrameState {
        if self.frees(addr) {
            FrameState {
                used: self.used.update(addr as int / 4096, false),
                cursor: self.cursor,
                total_frames: self.total_frames,
                allocated: self.allocated - 1,
            }
        } else {
            self
        }
    }

    /// The counter agrees with the bitmap, `reserved` bits being set without
    /// ever having been handed out.
    pub open spec fn balanced(self, reserved: int) -> bool {
        self.allocated + reserved == self.used_count()
    }

    /// The counter agrees with the bitmap: the bits set are those of the
    /// frames handed out and not given back, and those of the frames that
    /// the memory map did not leave free.
    pub open spec fn accounted(self) -> bool {
        0 <= self.total_frames <= MAX_FRAMES && self.balanced(MAX_FRAMES - self.total_frames)
    }
}

/// A search that finds nothing has seen every frame in use; one that finds
/// frame `f` has seen `f` free and every frame probed before it in use.
pub proof fn lemma_scan(s: FrameState, k: int)
    requires
        s.wf(),
        0 <= k <= MAX_FRAMES,
    ensures
        match s.scan(k) {
            Some(f) => 0 <= f < MAX_FRAMES && !s.used[f] && exists|j: int|
                k <= j < MAX_FRAMES && f == #[trigger] s.probe(j) && forall|i: int|
                    k <= i < j ==> s.used[#[trigger] s.probe(i)],
            None => forall|i: int| k <= i < MAX_FRAMES ==> s.used[#[trigger] s.probe(i)],
        },
    decreases MAX_FRAMES - k,
{
    if k < MAX_FRAMES {
        if s.used[s.probe(k)] {
            lemma_scan(s, k + 1);
            match s.scan(k + 1) {
                Some(f) => {
                    let j = choose|j: int|
                        k + 1 <= j < MAX_FRAMES && f == #[trigger] s.probe(j) && forall|i: int|
                            k + 1 <= i < j ==> s.used[#[trigger] s.probe(i)];
                    assert(k <= j < MAX_FRAMES && f == s.probe(j));
                    assert forall|i: int| k <= i < j implies s.used[#[trigger] s.probe(i)] by {}
                },
                None => {},
            }
        } else {
            assert(s.probe(k) == s.probe(k));
        }
    }
}

/// Every frame index is probed in one round, so a failed search means that
/// no frame is free.
pub proof fn lemma_scan_none_means_full(s: FrameState)
    requires
        s.wf(),
        s.next_free() is None,
    ensures
        forall|f: int| 0 <= f < MAX_FRAMES ==> s.used[f],
{
    lemma_scan(s, 0);
    assert forall|f: int| 0 <= f < MAX_FRAMES implies s.used[f] by {
        let k = if f >= s.cursor { f - s.cursor } else { f - s.cursor + MAX_FRAMES };
        assert(s.probe(k) == f);
    }
}

/// An allocation succeeds exactly when some frame is free.
pub proof fn lemma_allocate_succeeds_iff_free(s: FrameState)
    requires
        s.wf(),
    ensures
        s.allocate().1 is Some <==> exists|f: int| 0 <= f < MAX_FRAMES && !#[trigger] s.used[f],
{
    lemma_scan(s, 0);
    if s.next_free() is None {
        lemma_scan_none_means_full(s);
    } else {
        let f = s.next_free().unwrap();
        assert(!s.used[f]);
    }
}

/// An allocation succeeds exactly when a frame is left, and then one frame
/// fewer is left; a failed one changes nothing.
pub proof fn lemma_allocate_takes_one(s: FrameState)
    requires
        s.wf(),
    ensures
        0 <= s.free_count() <= MAX_FRAMES,
        s.allocate().1 is Some <==> s.free_count() > 0,
        s.allocate().1 is Some ==> s.allocate().0.free_count() == s.free_count() - 1,
        s.allocate().1 is None ==> s.allocate().0 == s,
{
    lemma_scan(s, 0);
    lemma_count_true_bound(s.used);
    lemma_count_true_full(s.used);
    lemma_allocate_succeeds_iff_free(s);
    match s.next_free() {
        Some(f) => {
            lemma_count_true_update(s.used, f, true);
        },
        None => {},
    }
}

/// Handing out a frame sets exactly one bit and moves the counter with it.
pub proof fn lemma_allocate_keeps_balance(s: FrameState, reserved: int)
    requires
        s.wf(),
        s.balanced(reserved),
        reserved >= 0,
    ensures
        s.allocate().0.wf(),
        s.allocate().0.balanced(reserved),
{
    lemma_scan(s, 0);
    match s.next_free() {
        Some(f) => {
            lemma_count_true_update(s.used, f, true);
            lemma_count_true_bound(s.used);
        },
        None => {},
    }
}

/// Giving back a frame keeps the counter and the bitmap together, whatever
/// the address: a frame in use loses its bit and the counter goes down by
/// one; a frame that is free already, or lies beyond the bitmap, changes
/// nothing.
pub proof fn lemma_free_keeps_balance(s: FrameState, addr: u64, reserved: int)
    requires
        s.wf(),
        s.balanced(reserved),
    ensures
        s.free(addr).wf(),
        s.free(addr).balanced(reserved),
        addr as int / 4096 < MAX_FRAMES && !s.used[addr as int / 4096] ==> s.free(addr) == s,
        s.frees(addr) ==> !s.free(addr).used[addr as int / 4096] && s.free(addr).used_count()
            == s.used_count() - 1 && s.free(addr).allocated == s.allocated - 1,
        forall|f: int|
            0 <= f < MAX_FRAMES && f != addr as int / 4096 ==> s.free(addr).used[f] == s.used[f],
{
    if s.frees(addr) {
        lemma_count_true_update(s.used, addr as int / 4096, false);
    }
}

/// Handing out and taking back keep the counter in step with the bitmap
/// that `init` has set up: the frames handed out and the frames left are
/// together the frames that the memory map left free.
pub proof fn lemma_accounted(s: FrameState, addr: u64)
    requires
        s.wf(),
        s.accounted(),
    ensures
        s.allocate().0.accounted(),
        s.free(addr).accounted(),
        s.allocated + s.free_count() == s.total_frames,
{
    lemma_allocate_keeps_balance(s, MAX_FRAMES - s.total_frames);
    lemma_free_keeps_balance(s, addr, MAX_FRAMES - s.total_frames);
}

/// Two allocations in a row never hand out the same frame.
pub proof fn lemma_consecutive_allocations_differ(s: FrameState)
    requires
        s.wf(),
    ensures
        ({
            let (s1, r1) = s.allocate();
            let (s2, r2) = s1.allocate();
            r1 is Some && r2 is Some ==> r1 != r2
        }),
{
    let (s1, r1) = s.allocate();
    lemma_scan(s, 0);
    if r1 is Some {
        lemma_scan(s1, 0);
    }
}

/// A frame given back can be handed out again: it is free afterwards,
/// as long as any frame was handed out.
pub proof fn lemma_freed_frame_is_free(s: FrameState, addr: u64)
    requires
        s.wf(),
        addr as int / 4096 < MAX_FRAMES,
        s.allocated > 0,
    ensures
        !s.free(addr).used[addr as int / 4096],
{
}

pub struct PhysicalFrameAllocator {
    bitmap: [u64; 1024],
    next_frame: usize,
    total_frames: usize,
    allocated_frames: usize,
}

impl View for PhysicalFrameAllocator {
    type V = FrameState;

    closed spec fn view(&self) -> FrameState {
        FrameState {
            used: Seq::new(MAX_FRAMES as nat, |f: int| self.bit(f)),
            cursor: self.next_frame as int,
            total_frames: self.total_frames as int,
            allocated: self.allocated_frames as int,
        }
    }
}

impl PhysicalFrameAllocator {
    #[verifier::type_invariant]
    spec fn inv(self) -> bool {
        self.next_frame < MAX_FRAMES
    }

    spec fn bit(&self, f: int) -> bool {
        word_bit(self.bitmap[f / 64], (f % 64) as u64)
    }

    /// An allocator whose bitmap is empty: every frame counts as free until
    /// `init` has read the memory map.
    pub fn new() -> (r: Self)
        ensures
            r@.wf(),
            r@.used == Seq::new(MAX_FRAMES as nat, |f: int| false),
            r@.cursor == 0,
            r@.total_frames == 0,
            r@.allocated == 0,
    {
        let r = PhysicalFrameAllocator {
            bitmap: [0u64; 1024],
            next_frame: 0,
            total_frames: 0,
            allocated_frames: 0,
        };
        proof {
            lemma_constant_words();
            assert forall|f: int| 0 <= f < MAX_FRAMES implies !r.bit(f) by {
                assert(!word_bit(0u64, (f % 64) as u64));
            }
            assert(r@.used =~= Seq::new(MAX_FRAMES as nat, |f: int| false));
        }
        r
    }

    /// Whether `map` leaves a frame free. Without one there is no memory
    /// to hand out, and `init` is not to be called.
    pub fn has_usable_frame(map: &MemoryMap) -> (r: bool)
        ensures
            r == (tracked_frames(map@) > 0),
    {
        let n: usize = map.len();
        let mut i: usize = 0;
        while i < n
            invariant
                0 <= i <= n,
                n == map@.len(),
                forall|j: int|
                    0 <= j < i ==> !((#[trigger] map@[j]).region_type == MemoryRegionType::Usable
                        && tracked_first(map@[j]) < tracked_end(map@[j])),
            decreases n - i,
        {
            let region = map.region(i);
            if region.region_type == MemoryRegionType::Usable {
                let (first, end) = Self::tracked_range(&region);
                if first < end {
                    assert(region == map@[i as int]);
                    assert(map@[i as int].region_type == MemoryRegionType::Usable && tracked_first(
                        map@[i as int],
                    ) < tracked_end(map@[i as int]));
                    proof {
                        lemma_tracked_frames(map@);
                    }
                    return true;
                }
            }
            i = i + 1;
        }
        proof {
            lemma_tracked_frames(map@);
        }
        false
    }

    /// The frames of `region` that the allocator tracks: from the first
    /// to the one before the second.
    pub fn tracked_range(region: &MemoryRegion) -> (r: (u64, u64))
        ensures
            r.0 == tracked_first(*region),
            r.1 == tracked_end(*region),
            r.1 <= MAX_FRAMES,
    {
        let start_frame: u64 = if region.base % 4096 == 0 {
            region.base / 4096
        } else {
            region.base / 4096 + 1
        };
        let first: u64 = if start_frame < 2048 {
            2048
        } else {
            start_frame
        };
        let end: u64 = match region.base.checked_add(region.length) {
            Some(limit) => if limit / 4096 < 65536 {
                limit / 4096
            } else {
                65536
            },
            None => 65536,
        };
        (first, end)
    }

    /// Reads the memory map: afterwards a frame is free exactly when it
    /// lies wholly within a usable region, at or above the safety
    /// threshold and within the bitmap, and `total_frames` counts the
    /// free frames. Nothing is handed out yet, and the cursor stays.
    ///
    /// A map that leaves no frame free is not accepted: the kernel cannot
    /// go on without memory. `has_usable_frame` tells.
    pub fn init(&mut self, map: &MemoryMap)
        requires
            tracked_frames(map@) > 0,
        ensures
            final(self)@.wf(),
            final(self)@.used == bitmap_of(map@),
            final(self)@.total_frames == tracked_frames(map@),
            0 < final(self)@.total_frames <= MAX_FRAMES,
            final(self)@.cursor == old(self)@.cursor,
            final(self)@.allocated == 0,
            final(self)@.accounted(),
    {
        proof {
            use_type_invariant(&*self);
        }
        let mut w: usize = 0;
        while w < 1024
            invariant
                0 <= w <= 1024,
                self.next_frame == old(self).next_frame,
                self.next_frame < MAX_FRAMES,
                forall|j: int| 0 <= j < w ==> self.bitmap[j] == 0xFFFF_FFFF_FFFF_FFFFu64,
            decreases 1024 - w,
        {
            self.bitmap[w] = 0xFFFF_FFFF_FFFF_FFFFu64;
            w = w + 1;
        }
        self.total_frames = 0;
        self.allocated_frames = 0;
        proof {
            lemma_constant_words();
            assert forall|f: int| 0 <= f < MAX_FRAMES implies self.bit(f) by {
                assert(word_bit(0xFFFF_FFFF_FFFF_FFFFu64, (f % 64) as u64));
            }
            assert(self@.used =~= Seq::new(
                MAX_FRAMES as nat,
                |f: int| !tracked_by_any(map@, 0, f),
            ));
            lemma_count_true_full(self@.used);
        }
        let n: usize = map.len();
        let mut i: usize = 0;
        while i < n
            invariant
                0 <= i <= n,
                n == map@.len(),
                n <= 32,
                self.next_frame == old(self).next_frame,
                self.next_frame < MAX_FRAMES,
                self.allocated_frames == 0,
                self.total_frames + count_true(self@.used) == MAX_FRAMES,
                self@.used == Seq::new(
                    MAX_FRAMES as nat,
                    |f: int| !tracked_by_any(map@, i as int, f),
                ),
            decreases n - i,
        {
            let region = map.region(i);
            let ghost before = self@;
            proof {
                assert forall|f: int| #[trigger]
                    tracked_by_any(map@, i + 1, f) == (tracked_by_any(map@, i as int, f)
                        || region_tracks(region, f)) by {
                    lemma_tracked_by_any_step(map@, i as int, f);
                }
            }
            if region.region_type == MemoryRegionType::Usable {
                let (first, end) = Self::tracked_range(&region);
                let mut frame: u64 = first;
                while frame < end
                    invariant
                        first == tracked_first(region),
                        end == tracked_end(region),
                        first <= frame,
                        first < end ==> frame <= end,
                        first >= end ==> frame == first,
                        end <= 65536,
                        self.next_frame == old(self).next_frame,
                        self.next_frame < MAX_FRAMES,
                        self.allocated_frames == 0,
                        self.total_frames + count_true(self@.used) == MAX_FRAMES,
                        self@.used == Seq::new(
                            MAX_FRAMES as nat,
                            |f: int| before.used[f] && !(first <= f < frame),
                        ),
                    decreases end - frame,
                {
                    let ghost mid = self@;
                    proof {
                        lemma_count_true_bound(mid.used);
                    }
                    if !self.is_free(frame as usize) {
                        self.mark_free(frame as usize);
                        let ghost cleared = self@;
                        self.total_frames = self.total_frames + 1;
                        proof {
                            lemma_count_true_update(mid.used, frame as int, false);
                            assert(self@.used =~= cleared.used);
                            assert(cleared.used =~= mid.used.update(frame as int, false));
                        }
                    }
                    frame = frame + 1;
                    proof {
                        assert(self@.used =~= Seq::new(
                            MAX_FRAMES as nat,
                            |f: int| before.used[f] && !(first <= f < frame),
                        ));
                    }
                }
            }
            proof {
                assert forall|f: int| 0 <= f < MAX_FRAMES implies self@.used[f] == !tracked_by_any(
                    map@,
                    i + 1,
                    f,
                ) by {
                    assert(before.used[f] == !tracked_by_any(map@, i as int, f));
                }
                assert(self@.used =~= Seq::new(
                    MAX_FRAMES as nat,
                    |f: int| !tracked_by_any(map@, i + 1, f),
                ));
            }
            i = i + 1;
        }
        proof {
            assert(self@.used =~= bitmap_of(map@));
            lemma_count_true_bound(self@.used);
        }
    }

    pub fn mark_free(&mut self, frame: usize)
        ensures
            frame < MAX_FRAMES ==> final(self)@ == (FrameState {
                used: old(self)@.used.update(frame as int, false),
                ..old(self)@
            }),
            frame >= MAX_FRAMES ==> final(self)@ == old(self)@,
            final(self)@.wf(),
    {
        proof {
            use_type_invariant(&*self);
        }
        if frame < 65536 {
            let idx: usize = frame / 64;
            let bit: u64 = (frame % 64) as u64;
            let ghost before = self.bitmap[idx as int];
            self.bitmap[idx] = self.bitmap[idx] & !(1u64 << bit);
            proof {
                lemma_clear_bit(before, bit);
                assert forall|f: int| 0 <= f < MAX_FRAMES implies self.bit(f) == (f != frame
                    && old(self).bit(f)) by {
                    if f / 64 == idx as int {
                        assert(word_bit(before & !(1u64 << bit), (f % 64) as u64) == ((f % 64) as u64
                            != bit && word_bit(before, (f % 64) as u64)));
                    }
                }
                assert(self@.used =~= old(self)@.used.update(frame as int, false));
            }
        }
    }

    pub fn mark_used(&mut self, frame: usize)
        ensures
            frame < MAX_FRAMES ==> final(self)@ == (FrameState {
                used: old(self)@.used.update(frame as int, true),
                ..old(self)@
            }),
            frame >= MAX_FRAMES ==> final(self)@ == old(self)@,
            final(self)@.wf(),
    {
        proof {
            use_type_invariant(&*self);
        }
        if frame < 65536 {
            let idx: usize = frame / 64;
            let bit: u64 = (frame % 64) as u64;
            let ghost before = self.bitmap[idx as int];
            self.bitmap[idx] = self.bitmap[idx] | (1u64 << bit);
            proof {
                lemma_set_bit(before, bit);
                assert forall|f: int| 0 <= f < MAX_FRAMES implies self.bit(f) == (f == frame
                    || old(self).bit(f)) by {
                    if f / 64 == idx as int {
                        assert(word_bit(before | (1u64 << bit), (f % 64) as u64) == ((f % 64) as u64
                            == bit || word_bit(before, (f % 64) as u64)));
                    }
                }
                assert(self@.used =~= old(self)@.used.update(frame as int, true));
            }
        }
    }

    /// Whether `frame` can be handed out. Frames beyond the bitmap never can.
    pub fn is_free(&self, frame: usize) -> (r: bool)
        ensures
            r == (frame < MAX_FRAMES && !self@.used[frame as int]),
            self@.wf(),
    {
        proof {
            use_type_invariant(self);
        }
        if frame < 65536 {
            let idx: usize = frame / 64;
            let bit: u64 = (frame % 64) as u64;
            (self.bitmap[idx] & (1u64 << bit)) == 0
        } else {
            false
        }
    }

    /// Hands out the first free frame at or after the cursor, going round
    /// the bitmap once, and returns its physical address; `None` when every
    /// frame is in use.
    pub fn allocate_frame(&mut self) -> (r: Option<u64>)
        ensures
            (final(self)@, r) == old(self)@.allocate(),
            old(self)@.wf(),
            final(self)@.wf(),
    {
        proof {
            use_type_invariant(&*self);
        }
        let start: usize = self.next_frame;
        let mut offset: usize = 0;
        while offset < 65536
            invariant
                0 <= offset <= MAX_FRAMES,
                start == self.next_frame,
                start < MAX_FRAMES,
                *self == *old(self),
                self@.scan(0) == self@.scan(offset as int),
            decreases MAX_FRAMES - offset,
        {
            let frame: usize = (start + offset) % 65536;
            if self.is_free(frame) {
                let ghost pre = self@;
                assert(pre.scan(offset as int) == Some(frame as int));
                self.mark_used(frame);
                self.next_frame = (frame + 1) % 65536;
                self.allocated_frames = if self.allocated_frames == usize::MAX {
                    0
                } else {
                    self.allocated_frames + 1
                };
                assert(self@.used =~= pre.used.update(frame as int, true));
                return Some((frame as u64) * 4096);
            }
            offset = offset + 1;
        }
        None
    }

    /// Takes back the frame that holds `addr`: its bit is cleared and the
    /// counter goes down by one. A frame that is free already is left
    /// alone, and so is the counter; addresses beyond the bitmap are
    /// ignored. While nothing is handed out nothing is taken back: the
    /// frames in use are then those that are not there to be handed out.
    pub fn free_frame(&mut self, addr: u64)
        ensures
            final(self)@ == old(self)@.free(addr),
            old(self)@.wf(),
            final(self)@.wf(),
    {
        proof {
            use_type_invariant(&*self);
        }
        let frame: u64 = addr / 4096;
        if frame < 65536 && self.allocated_frames > 0 && !self.is_free(frame as usize) {
            let ghost pre = self@;
            self.mark_free(frame as usize);
            self.allocated_frames = self.allocated_frames - 1;
            assert(self@.used =~= pre.used.update(frame as int, false));
        }
    }

    pub fn total_frames(&self) -> (r: usize)
        ensures
            r == self@.total_frames,
            self@.wf(),
    {
        proof {
            use_type_invariant(self);
        }
        self.total_frames
    }

    pub fn allocated_frames(&self) -> (r: usize)
        ensures
            r == self@.allocated,
    {
        self.allocated_frames
    }
}

} // verus!
