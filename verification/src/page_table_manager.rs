//! The page-table manager: maps and unmaps single 4 KiB pages in a 4-level
//! hierarchy whose tables live in frames of physical memory.
//!
//! The manager keeps the words of all tables it has seen, keyed by their
//! physical address; a word it has never seen reads as zero, an entry that
//! maps nothing. Every word it changes is noted in a journal, so that the
//! change can be carried over to the memory that the CPU reads, and every
//! change of a translation is noted in a list of addresses whose cached
//! translation the CPU has to drop.

use vstd::prelude::*;
use std::collections::HashMap;
use crate::frame_allocator::{
    FrameState,
    PhysicalFrameAllocator,
    MAX_FRAMES,
    lemma_allocate_takes_one,
    lemma_scan,
};
use crate::page_table::{
    PageTableEntry,
    PageTableFlags,
    PageTable,
    ADDRESS_MASK,
    FLAGS_MASK,
    lemma_entry_fields,
    lemma_flag_bits,
};

verus! {

/// Why a page could not be mapped or unmapped.
#[derive(Debug, Clone, Copy, PartialEq, Eq, Structural)]
pub enum PagingError {
    /// A table was missing and no frame was left to hold a new one.
    OutOfFrames,
    /// The page already has a translation.
    AlreadyMapped,
    /// The walk met an entry that maps nothing, at the table of this level
    /// (4 is the root, 1 the leaf table).
    NotMapped { level: u8 },
}

impl PagingError {
    /// The words for the error. An entry that maps nothing is named with
    /// the level of its table; a level that no table has reads as the
    /// leaf level.
    pub fn message(&self) -> (r: &'static str)
        ensures
            r@ == (match *self {
                PagingError::OutOfFrames => "Out of physical frames"@,
                PagingError::AlreadyMapped => "Page already mapped"@,
                PagingError::NotMapped { level } => if level == 4 {
                    "Page not mapped (L4)"@
                } else if level == 3 {
                    "Page not mapped (L3)"@
                } else if level == 2 {
                    "Page not mapped (L2)"@
                } else {
                    "Page not mapped (L1)"@
                },
            }),
    {
        match self {
            PagingError::OutOfFrames => "Out of physical frames",
            PagingError::AlreadyMapped => "Page already mapped",
            PagingError::NotMapped { level } => {
                if *level == 4 {
                    "Page not mapped (L4)"
                } else if *level == 3 {
                    "Page not mapped (L3)"
                } else if *level == 2 {
                    "Page not mapped (L2)"
                } else {
                    "Page not mapped (L1)"
                }
            },
        }
    }
}

/// Index into the root table: bits 39 to 47 of the address.
pub open spec fn l4_index(virt: u64) -> int {
    ((virt >> 39u64) & 0x1FFu64) as int
}

/// Index into the table of level 3: bits 30 to 38.
pub open spec fn l3_index(virt: u64) -> int {
    ((virt >> 30u64) & 0x1FFu64) as int
}

/// Index into the table of level 2: bits 21 to 29.
pub open spec fn l2_index(virt: u64) -> int {
    ((virt >> 21u64) & 0x1FFu64) as int
}

/// Index into the leaf table: bits 12 to 20.
pub open spec fn l1_index(virt: u64) -> int {
    ((virt >> 12u64) & 0x1FFu64) as int
}

/// Every index fits a table, and the bits below the page number play no
/// part in any of them.
pub proof fn lemma_index_bounds(virt: u64)
    by (bit_vector)
    ensures
        (virt >> 39u64) & 0x1FFu64 < 512,
        (virt >> 30u64) & 0x1FFu64 < 512,
        (virt >> 21u64) & 0x1FFu64 < 512,
        (virt >> 12u64) & 0x1FFu64 < 512,
        ((virt & !0xFFFu64) >> 39u64) & 0x1FFu64 == (virt >> 39u64) & 0x1FFu64,
        ((virt & !0xFFFu64) >> 30u64) & 0x1FFu64 == (virt >> 30u64) & 0x1FFu64,
        ((virt & !0xFFFu64) >> 21u64) & 0x1FFu64 == (virt >> 21u64) & 0x1FFu64,
        ((virt & !0xFFFu64) >> 12u64) & 0x1FFu64 == (virt >> 12u64) & 0x1FFu64,
{
}

/// Whether `table` can be the address of a table: page aligned and within
/// the address field of an entry.
pub open spec fn table_address(table: u64) -> bool {
    table % 4096 == 0 && table <= ADDRESS_MASK
}

/// Whether `table` can be the address of a table.
pub fn table_address_ok(table: u64) -> (r: bool)
    ensures
        r == table_address(table),
{
    table % 4096 == 0 && table <= ADDRESS_MASK
}

/// Physical address of entry `idx` of the table at `table`.
pub open spec fn slot(table: u64, idx: int) -> u64 {
    (table + idx * 8) as u64
}

/// Whether `key` is the address of one of the 512 entries of `table`.
pub open spec fn in_table(table: u64, key: u64) -> bool {
    table <= key < table + 4096 && (key - table) % 8 == 0
}

/// Whether the allocator will never hand out the frame at `addr`: it lies
/// beyond the bitmap or its bit is set.
pub open spec fn reserved(frames: FrameState, addr: u64) -> bool {
    addr as int / 4096 >= MAX_FRAMES || frames.used[addr as int / 4096]
}

/// The mathematical state of the manager.
pub struct PagingState {
    /// Physical address of the root table.
    pub root: u64,
    /// Distance from a physical address to where the kernel sees it.
    pub offset: u64,
    /// The words of the tables, by physical address.
    pub words: Map<u64, u64>,
    /// The words written and not yet handed over, oldest first: physical
    /// address and value.
    pub journal: Seq<(u64, u64)>,
    /// Virtual addresses whose translation has to be dropped, oldest first.
    pub flushes: Seq<u64>,
}

impl PagingState {
    pub open spec fn wf(self) -> bool {
        table_address(self.root)
    }

    /// Entry `idx` of the table at `table`.
    pub open spec fn entry(self, table: u64, idx: int) -> PageTableEntry {
        if self.words.contains_key(slot(table, idx)) {
            PageTableEntry(self.words[slot(table, idx)])
        } else {
            PageTableEntry(0)
        }
    }

    /// The state after storing `e` as entry `idx` of `table`.
    pub open spec fn write(self, table: u64, idx: int, e: PageTableEntry) -> PagingState {
        PagingState {
            words: self.words.insert(slot(table, idx), e.0),
            journal: self.journal.push((slot(table, idx), e.0)),
            ..self
        }
    }

    /// The state after entry `idx` of `table` has been read in from
    /// memory: the word is known, and nothing is noted in the journal.
    pub open spec fn loaded(self, table: u64, idx: int, e: PageTableEntry) -> PagingState {
        PagingState { words: self.words.insert(slot(table, idx), e.0), ..self }
    }

    /// The state after clearing all entries of `table`, first to last.
    pub open spec fn zeroed(self, table: u64) -> PagingState {
        PagingState {
            words: Map::new(
                |k: u64| self.words.contains_key(k) || in_table(table, k),
                |k: u64|
                    if in_table(table, k) {
                        0u64
                    } else {
                        self.words[k]
                    },
            ),
            journal: self.journal + Seq::new(512, |i: int| (slot(table, i), 0u64)),
            ..self
        }
    }

    /// The state after noting that the translation of `virt` is stale.
    pub open spec fn flushed(self, virt: u64) -> PagingState {
        PagingState { flushes: self.flushes.push(virt), ..self }
    }

    /// The table that entry `idx` of `table` points to, if it is present.
    pub open spec fn next_table(self, table: u64, idx: int) -> Option<u64> {
        if self.entry(table, idx).present() {
            Some(self.entry(table, idx).address())
        } else {
            None
        }
    }

    /// The leaf table for `virt`, or the level at which the walk ends.
    pub open spec fn leaf_table(self, virt: u64) -> Result<u64, u8> {
        match self.next_table(self.root, l4_index(virt)) {
            None => Err(4u8),
            Some(l3) => match self.next_table(l3, l3_index(virt)) {
                None => Err(3u8),
                Some(l2) => match self.next_table(l2, l2_index(virt)) {
                    None => Err(2u8),
                    Some(l1) => Ok(l1),
                },
            },
        }
    }

    /// The leaf entry that translates `virt`, if the walk from the root
    /// finds a present entry at every level.
    pub open spec fn walk(self, virt: u64) -> Option<PageTableEntry> {
        match self.leaf_table(virt) {
            Err(_) => None,
            Ok(l1) => if self.entry(l1, l1_index(virt)).present() {
                Some(self.entry(l1, l1_index(virt)))
            } else {
                None
            },
        }
    }

    /// Whether entry `idx` of `table` has been read in or written.
    pub open spec fn knows(self, table: u64, idx: int) -> bool {
        self.words.contains_key(slot(table, idx))
    }

    /// The first table on the way down to `virt` whose entry for `virt`
    /// is not known: it has to be read in before the page is mapped,
    /// unmapped or looked up. `None` when the way is known as far as it
    /// goes.
    pub open spec fn unknown_table(self, virt: u64) -> Option<u64> {
        if !self.knows(self.root, l4_index(virt)) {
            Some(self.root)
        } else {
            match self.next_table(self.root, l4_index(virt)) {
                None => None,
                Some(l3) => if !self.knows(l3, l3_index(virt)) {
                    Some(l3)
                } else {
                    match self.next_table(l3, l3_index(virt)) {
                        None => None,
                        Some(l2) => if !self.knows(l2, l2_index(virt)) {
                            Some(l2)
                        } else {
                            match self.next_table(l2, l2_index(virt)) {
                                None => None,
                                Some(l1) => if !self.knows(l1, l1_index(virt)) {
                                    Some(l1)
                                } else {
                                    None
                                },
                            }
                        },
                    }
                },
            }
        }
    }

    /// One step down: follows entry `idx` of `table` if it is present;
    /// otherwise takes a frame, installs it there with kernel flags and
    /// clears it. `None` when a frame was needed and none was free.
    pub open spec fn descend(self, frames: FrameState, table: u64, idx: int) -> (
        PagingState,
        FrameState,
        Option<u64>,
    ) {
        if self.entry(table, idx).present() {
            (self, frames, Some(self.entry(table, idx).address()))
        } else {
            match frames.allocate() {
                (after, Some(fresh)) => (
                    self.write(table, idx, PageTableEntry::of(fresh, PageTableFlags(3))).zeroed(
                        fresh,
                    ),
                    after,
                    Some(fresh),
                ),
                (after, None) => (self, after, None),
            }
        }
    }

    /// What mapping `virt` to `phys` does to the tables and the frames.
    pub open spec fn map(self, frames: FrameState, virt: u64, phys: u64, flags: PageTableFlags) -> (
        PagingState,
        FrameState,
        Result<(), PagingError>,
    ) {
        let (s3, f3, t3) = self.descend(frames, self.root, l4_index(virt));
        match t3 {
            None => (s3, f3, Err(PagingError::OutOfFrames)),
            Some(l3) => {
                let (s2, f2, t2) = s3.descend(f3, l3, l3_index(virt));
                match t2 {
                    None => (s2, f2, Err(PagingError::OutOfFrames)),
                    Some(l2) => {
                        let (s1, f1, t1) = s2.descend(f2, l2, l2_index(virt));
                        match t1 {
                            None => (s1, f1, Err(PagingError::OutOfFrames)),
                            Some(l1) => if s1.entry(l1, l1_index(virt)).present() {
                                (s1, f1, Err(PagingError::AlreadyMapped))
                            } else {
                                (
                                    s1.write(
                                        l1,
                                        l1_index(virt),
                                        PageTableEntry::of(phys, flags),
                                    ).flushed(virt),
                                    f1,
                                    Ok(()),
                                )
                            },
                        }
                    },
                }
            },
        }
    }

    /// What unmapping `virt` does to the tables and the frames.
    pub open spec fn unmap(self, frames: FrameState, virt: u64) -> (
        PagingState,
        FrameState,
        Result<u64, PagingError>,
    ) {
        match self.leaf_table(virt) {
            Err(level) => (self, frames, Err(PagingError::NotMapped { level })),
            Ok(l1) => if self.entry(l1, l1_index(virt)).present() {
                let phys = self.entry(l1, l1_index(virt)).address();
                (
                    self.write(l1, l1_index(virt), PageTableEntry(0)).flushed(virt),
                    frames.free(phys),
                    Ok(phys),
                )
            } else {
                (self, frames, Err(PagingError::NotMapped { level: 1 }))
            },
        }
    }
}

/// Two entries share an address only if they are the same entry of the same
/// table, and an entry lies in no table but its own.
pub proof fn lemma_slot_distinct(t1: u64, i1: int, t2: u64, i2: int)
    requires
        table_address(t1),
        table_address(t2),
        0 <= i1 < 512,
        0 <= i2 < 512,
    ensures
        (slot(t1, i1) == slot(t2, i2)) <==> (t1 == t2 && i1 == i2),
        in_table(t2, slot(t1, i1)) <==> t1 == t2,
{
    assert(t1 == 4096 * (t1 as int / 4096));
    assert(t2 == 4096 * (t2 as int / 4096));
    assert((i1 * 8) % 8 == 0);
}

/// A write changes the entry written and no other.
pub proof fn lemma_write_entry(s: PagingState, t: u64, i: int, e: PageTableEntry, t2: u64, i2: int)
    requires
        table_address(t),
        table_address(t2),
        0 <= i < 512,
        0 <= i2 < 512,
    ensures
        s.write(t, i, e).entry(t2, i2) == (if t == t2 && i == i2 {
            e
        } else {
            s.entry(t2, i2)
        }),
{
    lemma_slot_distinct(t, i, t2, i2);
}

/// Clearing a table empties its entries and leaves every other table alone.
pub proof fn lemma_zeroed_entry(s: PagingState, f: u64, t2: u64, i2: int)
    requires
        table_address(f),
        table_address(t2),
        0 <= i2 < 512,
    ensures
        s.zeroed(f).entry(t2, i2) == (if t2 == f {
            PageTableEntry(0)
        } else {
            s.entry(t2, i2)
        }),
{
    lemma_slot_distinct(t2, i2, f, 0);
}

/// The tables that the walk for `virt` passes, the root and every table
/// that exists on the way down, are different frames, and the allocator
/// hands out none of them.
pub open spec fn path_reserved(s: PagingState, frames: FrameState, virt: u64) -> bool {
    &&& reserved(frames, s.root)
    &&& match s.next_table(s.root, l4_index(virt)) {
        None => true,
        Some(l3) => {
            &&& reserved(frames, l3)
            &&& l3 != s.root
            &&& match s.next_table(l3, l3_index(virt)) {
                None => true,
                Some(l2) => {
                    &&& reserved(frames, l2)
                    &&& l2 != s.root
                    &&& l2 != l3
                    &&& match s.next_table(l2, l2_index(virt)) {
                        None => true,
                        Some(l1) => {
                            &&& reserved(frames, l1)
                            &&& l1 != s.root
                            &&& l1 != l3
                            &&& l1 != l2
                        },
                    }
                },
            }
        },
    }
}

/// What one step down leaves behind: the entry followed points to the
/// table returned; a table made on the way is a frame that was free, comes
/// out empty and is reserved from then on; no entry of any other reserved
/// table has changed.
pub proof fn lemma_descend(s: PagingState, frames: FrameState, table: u64, idx: int)
    requires
        frames.wf(),
        table_address(table),
        0 <= idx < 512,
        reserved(frames, table),
    ensures
        ({
            let (s2, f2, r) = s.descend(frames, table, idx);
            &&& f2.wf()
            &&& s2.root == s.root
            &&& forall|a: u64| reserved(frames, a) ==> reserved(f2, a)
            &&& r is None ==> s2 == s
            &&& r matches Some(child) ==> {
                &&& table_address(child)
                &&& s2.next_table(table, idx) == Some(child)
                &&& s.entry(table, idx).present() ==> s2 == s && f2 == frames
                &&& !s.entry(table, idx).present() ==> {
                    &&& !reserved(frames, child)
                    &&& reserved(f2, child)
                    &&& forall|i: int| 0 <= i < 512 ==> (#[trigger] s2.entry(child, i)).0 == 0
                }
                &&& forall|t2: u64, i2: int|
                    table_address(t2) && 0 <= i2 < 512 && reserved(frames, t2) && !(t2 == table
                        && i2 == idx) ==> #[trigger] s2.entry(t2, i2) == s.entry(t2, i2)
            }
        }),
{
    let (s2, f2, r) = s.descend(frames, table, idx);
    lemma_entry_fields(s.entry(table, idx).0, 0);
    if !s.entry(table, idx).present() {
        lemma_scan(frames, 0);
        match frames.allocate() {
            (after, Some(fresh)) => {
                let f = frames.next_free().unwrap();
                assert(fresh == f * 4096);
                assert(fresh as int / 4096 == f);
                lemma_entry_fields(fresh, 3);
                lemma_flag_bits(0);
                let e = PageTableEntry::of(fresh, PageTableFlags(3));
                let written = s.write(table, idx, e);
                lemma_write_entry(s, table, idx, e, table, idx);
                lemma_zeroed_entry(written, fresh, table, idx);
                assert(s2.entry(table, idx) == e);
                assert forall|i: int| 0 <= i < 512 implies (#[trigger] s2.entry(fresh, i)).0
                    == 0 by {
                    lemma_zeroed_entry(written, fresh, fresh, i);
                }
                assert forall|t2: u64, i2: int|
                    table_address(t2) && 0 <= i2 < 512 && reserved(frames, t2) && !(t2 == table
                        && i2 == idx) implies #[trigger] s2.entry(t2, i2) == s.entry(t2, i2) by {
                    lemma_write_entry(s, table, idx, e, t2, i2);
                    lemma_zeroed_entry(written, fresh, t2, i2);
                }
            },
            (after, None) => {},
        }
    }
}

/// A page that is mapped with the present bit in its flags is found by
/// the walk afterwards: the leaf entry is present and holds the frame's
/// address, cut to its page, and the flags given; the page is noted for
/// a flush. (Without the present bit the entry is stored as given and
/// maps nothing.)
pub proof fn lemma_map_installs(
    s: PagingState,
    frames: FrameState,
    virt: u64,
    phys: u64,
    flags: PageTableFlags,
)
    requires
        s.wf(),
        frames.wf(),
        path_reserved(s, frames, virt),
        flags.present(),
    ensures
        ({
            let (s2, f2, r) = s.map(frames, virt, phys, flags);
            r is Ok ==> {
                &&& s2.walk(virt) == Some(PageTableEntry::of(phys, flags))
                &&& s2.walk(virt).unwrap().address() == phys & ADDRESS_MASK
                &&& s2.walk(virt).unwrap().present()
                &&& s2.walk(virt).unwrap().flag_bits().0 == flags.0 & FLAGS_MASK
                &&& s2.flushes.len() > 0 && s2.flushes.last() == virt
            }
        }),
{
    PageTableEntry::lemma_of(phys, flags);
    lemma_index_bounds(virt);
    lemma_flag_bits(0);
    let i4 = l4_index(virt);
    let i3 = l3_index(virt);
    let i2 = l2_index(virt);
    let i1 = l1_index(virt);
    let root = s.root;
    let (s3, f3, t3) = s.descend(frames, root, i4);
    lemma_descend(s, frames, root, i4);
    if t3 is Some {
        let l3 = t3.unwrap();
        assert(l3 != root && reserved(f3, l3) && reserved(f3, root));
        let (s2, f2, t2) = s3.descend(f3, l3, i3);
        lemma_descend(s3, f3, l3, i3);
        if t2 is Some {
            let l2 = t2.unwrap();
            if s3.entry(l3, i3).present() {
                assert(s.entry(root, i4).present());
            }
            assert(l2 != root && l2 != l3 && reserved(f2, l2));
            assert(s2.entry(root, i4) == s3.entry(root, i4));
            let (s1, f1, t1) = s2.descend(f2, l2, i2);
            lemma_descend(s2, f2, l2, i2);
            if t1 is Some {
                let l1 = t1.unwrap();
                if s2.entry(l2, i2).present() {
                    assert(s3.entry(l3, i3).present());
                    assert(s.entry(root, i4).present());
                }
                assert(l1 != root && l1 != l3 && l1 != l2);
                assert(s1.entry(root, i4) == s2.entry(root, i4));
                assert(s1.entry(l3, i3) == s2.entry(l3, i3));
                if !s1.entry(l1, i1).present() {
                    let e = PageTableEntry::of(phys, flags);
                    let w = s1.write(l1, i1, e);
                    lemma_write_entry(s1, l1, i1, e, root, i4);
                    lemma_write_entry(s1, l1, i1, e, l3, i3);
                    lemma_write_entry(s1, l1, i1, e, l2, i2);
                    lemma_write_entry(s1, l1, i1, e, l1, i1);
                    let fin = w.flushed(virt);
                    assert(fin.entry(root, i4) == s1.entry(root, i4));
                    assert(fin.entry(l3, i3) == s1.entry(l3, i3));
                    assert(fin.entry(l2, i2) == s1.entry(l2, i2));
                    assert(fin.entry(l1, i1) == e);
                    assert(fin.leaf_table(virt) == Ok::<u64, u8>(l1));
                }
            }
        }
    }
}

/// Mapping a page that has no translation succeeds when three frames are
/// free, enough for every table that may be missing on the way down.
pub proof fn lemma_map_succeeds(
    s: PagingState,
    frames: FrameState,
    virt: u64,
    phys: u64,
    flags: PageTableFlags,
)
    requires
        s.wf(),
        frames.wf(),
        path_reserved(s, frames, virt),
        s.walk(virt) is None,
        frames.free_count() >= 3,
    ensures
        s.map(frames, virt, phys, flags).2 is Ok,
{
    lemma_index_bounds(virt);
    lemma_flag_bits(0);
    let i4 = l4_index(virt);
    let i3 = l3_index(virt);
    let i2 = l2_index(virt);
    let i1 = l1_index(virt);
    let root = s.root;
    let (s3, f3, t3) = s.descend(frames, root, i4);
    lemma_descend(s, frames, root, i4);
    lemma_allocate_takes_one(frames);
    assert(t3 is Some && f3.free_count() >= 2);
    let l3 = t3.unwrap();
    let (s2, f2, t2) = s3.descend(f3, l3, i3);
    lemma_descend(s3, f3, l3, i3);
    lemma_allocate_takes_one(f3);
    assert(t2 is Some && f2.free_count() >= 1);
    let l2 = t2.unwrap();
    if s3.entry(l3, i3).present() {
        assert(s.entry(root, i4).present());
    }
    let (s1, f1, t1) = s2.descend(f2, l2, i2);
    lemma_descend(s2, f2, l2, i2);
    lemma_allocate_takes_one(f2);
    assert(t1 is Some);
    let l1 = t1.unwrap();
    if s2.entry(l2, i2).present() {
        assert(s3.entry(l3, i3).present());
        assert(s.entry(root, i4).present());
        assert(s1 == s);
    } else {
        assert(s1.entry(l1, i1).0 == 0);
    }
    assert(!s1.entry(l1, i1).present());
}

/// Mapping a page leaves the tables on its way down sound, whether it
/// succeeds or not: the page can be mapped, unmapped and looked up again
/// on the same terms.
pub proof fn lemma_map_keeps_path(
    s: PagingState,
    frames: FrameState,
    virt: u64,
    phys: u64,
    flags: PageTableFlags,
)
    requires
        s.wf(),
        frames.wf(),
        path_reserved(s, frames, virt),
    ensures
        path_reserved(
            s.map(frames, virt, phys, flags).0,
            s.map(frames, virt, phys, flags).1,
            virt,
        ),
{
    lemma_index_bounds(virt);
    lemma_flag_bits(0);
    let i4 = l4_index(virt);
    let i3 = l3_index(virt);
    let i2 = l2_index(virt);
    let i1 = l1_index(virt);
    let root = s.root;
    let (s3, f3, t3) = s.descend(frames, root, i4);
    lemma_descend(s, frames, root, i4);
    if t3 is Some {
        let l3 = t3.unwrap();
        assert(l3 != root && reserved(f3, l3) && reserved(f3, root));
        let (s2, f2, t2) = s3.descend(f3, l3, i3);
        lemma_descend(s3, f3, l3, i3);
        if t2 is Some {
            let l2 = t2.unwrap();
            if s3.entry(l3, i3).present() {
                assert(s.entry(root, i4).present());
            }
            assert(l2 != root && l2 != l3 && reserved(f2, l2));
            assert(s2.entry(root, i4) == s3.entry(root, i4));
            let (s1, f1, t1) = s2.descend(f2, l2, i2);
            lemma_descend(s2, f2, l2, i2);
            if t1 is Some {
                let l1 = t1.unwrap();
                if s2.entry(l2, i2).present() {
                    assert(s3.entry(l3, i3).present());
                    assert(s.entry(root, i4).present());
                }
                assert(l1 != root && l1 != l3 && l1 != l2);
                assert(s1.entry(root, i4) == s2.entry(root, i4));
                assert(s1.entry(l3, i3) == s2.entry(l3, i3));
                assert(path_reserved(s1, f1, virt));
                if !s1.entry(l1, i1).present() {
                    let e = PageTableEntry::of(phys, flags);
                    let w = s1.write(l1, i1, e);
                    lemma_write_entry(s1, l1, i1, e, root, i4);
                    lemma_write_entry(s1, l1, i1, e, l3, i3);
                    lemma_write_entry(s1, l1, i1, e, l2, i2);
                    let fin = w.flushed(virt);
                    assert(fin.entry(root, i4) == s1.entry(root, i4));
                    assert(fin.entry(l3, i3) == s1.entry(l3, i3));
                    assert(fin.entry(l2, i2) == s1.entry(l2, i2));
                }
            } else {
                assert(s1 == s2);
                assert(path_reserved(s2, f1, virt));
            }
        } else {
            assert(s2 == s3);
            assert(path_reserved(s3, f2, virt));
        }
    } else {
        assert(s3 == s);
    }
}

/// Mapping a page that already has a translation fails with "already
/// mapped" and changes nothing.
pub proof fn lemma_map_of_mapped_fails(
    s: PagingState,
    frames: FrameState,
    virt: u64,
    phys: u64,
    flags: PageTableFlags,
)
    requires
        s.walk(virt) is Some,
    ensures
        s.map(frames, virt, phys, flags) == (
            s,
            frames,
            Err::<(), PagingError>(PagingError::AlreadyMapped),
        ),
{
}

/// Mapping the same page twice with no unmap in between: the second call
/// fails with "already mapped" and changes nothing.
pub proof fn lemma_map_twice_fails(
    s: PagingState,
    frames: FrameState,
    virt: u64,
    phys: u64,
    flags: PageTableFlags,
    phys2: u64,
    flags2: PageTableFlags,
)
    requires
        s.wf(),
        frames.wf(),
        path_reserved(s, frames, virt),
        flags.present(),
    ensures
        ({
            let (s2, f2, r) = s.map(frames, virt, phys, flags);
            r is Ok ==> s2.map(f2, virt, phys2, flags2) == (
                s2,
                f2,
                Err::<(), PagingError>(PagingError::AlreadyMapped),
            )
        }),
{
    let (s2, f2, r) = s.map(frames, virt, phys, flags);
    lemma_map_installs(s, frames, virt, phys, flags);
    if r is Ok {
        lemma_map_of_mapped_fails(s2, f2, virt, phys2, flags2);
    }
}

/// Unmapping a page that has no translation fails with "not mapped" and
/// changes nothing.
pub proof fn lemma_unmap_of_unmapped_fails(s: PagingState, frames: FrameState, virt: u64)
    requires
        s.walk(virt) is None,
    ensures
        ({
            let (s2, f2, r) = s.unmap(frames, virt);
            &&& s2 == s
            &&& f2 == frames
            &&& r matches Err(PagingError::NotMapped { level }) && 1 <= level <= 4
        }),
{
}

/// Unmapping a page that was just mapped returns the frame it was mapped
/// to, cut to its page, and gives that frame back: where it lies within
/// the bitmap and some frame is handed out, it is free afterwards, so
/// that the next allocation may hand it out again.
pub proof fn lemma_map_then_unmap(
    s: PagingState,
    frames: FrameState,
    virt: u64,
    phys: u64,
    flags: PageTableFlags,
)
    requires
        s.wf(),
        frames.wf(),
        path_reserved(s, frames, virt),
        flags.present(),
    ensures
        ({
            let (s2, f2, r) = s.map(frames, virt, phys, flags);
            let (s3, f3, r3) = s2.unmap(f2, virt);
            r is Ok ==> {
                &&& r3 == Ok::<u64, PagingError>(phys & ADDRESS_MASK)
                &&& f3 == f2.free(phys & ADDRESS_MASK)
                &&& s3.walk(virt) is None
                &&& (phys & ADDRESS_MASK) as int / 4096 < MAX_FRAMES && f2.allocated > 0
                    ==> !f3.used[(phys & ADDRESS_MASK) as int / 4096]
            }
        }),
{
    let (s2, f2, r) = s.map(frames, virt, phys, flags);
    lemma_map_installs(s, frames, virt, phys, flags);
    if r is Ok {
        lemma_map_keeps_wf(s, frames, virt, phys, flags);
        lemma_unmap_clears(s2, f2, virt);
    }
}

/// Unmapping a mapped page leaves it without a translation.
pub proof fn lemma_unmap_clears(s: PagingState, frames: FrameState, virt: u64)
    requires
        s.wf(),
        s.walk(virt) is Some,
    ensures
        s.unmap(frames, virt).2 == Ok::<u64, PagingError>(s.walk(virt).unwrap().address()),
        s.unmap(frames, virt).0.walk(virt) is None,
{
    lemma_index_bounds(virt);
    lemma_flag_bits(0);
    let i4 = l4_index(virt);
    let i3 = l3_index(virt);
    let i2 = l2_index(virt);
    let i1 = l1_index(virt);
    lemma_entry_fields(s.entry(s.root, i4).0, 0);
    let l3 = s.next_table(s.root, i4).unwrap();
    lemma_entry_fields(s.entry(l3, i3).0, 0);
    let l2 = s.next_table(l3, i3).unwrap();
    lemma_entry_fields(s.entry(l2, i2).0, 0);
    let l1 = s.next_table(l2, i2).unwrap();
    let z = PageTableEntry(0);
    let w = s.write(l1, i1, z);
    lemma_write_entry(s, l1, i1, z, s.root, i4);
    lemma_write_entry(s, l1, i1, z, l3, i3);
    lemma_write_entry(s, l1, i1, z, l2, i2);
    lemma_write_entry(s, l1, i1, z, l1, i1);
    let fin = w.flushed(virt);
    if fin.leaf_table(virt) is Ok {
        let m3 = fin.next_table(fin.root, i4).unwrap();
        lemma_entry_fields(fin.entry(fin.root, i4).0, 0);
        lemma_write_entry(s, l1, i1, z, m3, i3);
        let m2 = fin.next_table(m3, i3).unwrap();
        lemma_entry_fields(fin.entry(m3, i3).0, 0);
        lemma_write_entry(s, l1, i1, z, m2, i2);
        let m1 = fin.next_table(m2, i2).unwrap();
        lemma_entry_fields(fin.entry(m2, i2).0, 0);
        lemma_write_entry(s, l1, i1, z, m1, i1);
    }
}

/// Mapping keeps both states well formed.
pub proof fn lemma_map_keeps_wf(
    s: PagingState,
    frames: FrameState,
    virt: u64,
    phys: u64,
    flags: PageTableFlags,
)
    requires
        s.wf(),
        frames.wf(),
    ensures
        s.map(frames, virt, phys, flags).0.wf(),
        s.map(frames, virt, phys, flags).1.wf(),
{
    lemma_scan(frames, 0);
    let (s3, f3, t3) = s.descend(frames, s.root, l4_index(virt));
    lemma_scan(f3, 0);
    if t3 is Some {
        let (s2, f2, t2) = s3.descend(f3, t3.unwrap(), l3_index(virt));
        lemma_scan(f2, 0);
    }
}

pub struct PageTableManager {
    l4_table_phys: u64,
    higher_half_offset: u64,
    words: HashMap<u64, u64>,
    journal: Vec<(u64, u64)>,
    flushes: Vec<u64>,
}

impl View for PageTableManager {
    type V = PagingState;

    closed spec fn view(&self) -> PagingState {
        PagingState {
            root: self.l4_table_phys & ADDRESS_MASK,
            offset: self.higher_half_offset,
            words: self.words@,
            journal: self.journal@,
            flushes: self.flushes@,
        }
    }
}

impl PageTableManager {
    /// A manager for the hierarchy whose root the CPU's root-table register
    /// `cr3` names. Nothing is known of the tables yet.
    pub fn new(cr3: u64, higher_half_offset: u64) -> (r: Self)
        ensures
            r@.wf(),
            r@.root == cr3 & ADDRESS_MASK,
            r@.offset == higher_half_offset,
            r@.words == Map::<u64, u64>::empty(),
            r@.journal == Seq::<(u64, u64)>::empty(),
            r@.flushes == Seq::<u64>::empty(),
    {
        proof {
            lemma_entry_fields(cr3, 0);
            lemma_entry_fields(cr3 & ADDRESS_MASK, 0);
        }
        PageTableManager {
            l4_table_phys: cr3 & ADDRESS_MASK,
            higher_half_offset,
            words: HashMap::new(),
            journal: Vec::new(),
            flushes: Vec::new(),
        }
    }

    /// Physical address of the root table.
    pub fn root(&self) -> (r: u64)
        ensures
            r == self@.root,
            self@.wf(),
    {
        proof {
            lemma_entry_fields(self.l4_table_phys, 0);
        }
        self.l4_table_phys & ADDRESS_MASK
    }

    /// The address at which the kernel sees physical address `phys`.
    pub fn phys_to_virt(&self, phys: u64) -> (r: u64)
        requires
            phys + self@.offset <= u64::MAX,
        ensures
            r == phys + self@.offset,
    {
        phys + self.higher_half_offset
    }

    /// Entry `idx` of the table at `table`.
    pub fn read_entry(&self, table: u64, idx: usize) -> (r: PageTableEntry)
        requires
            table_address(table),
            idx < 512,
        ensures
            r == self@.entry(table, idx as int),
    {
        let key: u64 = table + (idx as u64) * 8;
        match self.words.get(&key) {
            Some(w) => PageTableEntry(*w),
            None => PageTableEntry(0),
        }
    }

    /// Stores `e` as entry `idx` of the table at `table`.
    pub fn write_entry(&mut self, table: u64, idx: usize, e: PageTableEntry)
        requires
            table_address(table),
            idx < 512,
        ensures
            final(self)@ == old(self)@.write(table, idx as int, e),
    {
        let key: u64 = table + (idx as u64) * 8;
        self.words.insert(key, e.0);
        self.journal.push((key, e.0));
    }

    /// Takes note of entry `idx` of the table at `table` as it stands in
    /// memory.
    pub fn load_entry(&mut self, table: u64, idx: usize, e: PageTableEntry)
        requires
            table_address(table),
            idx < 512,
        ensures
            final(self)@ == old(self)@.loaded(table, idx as int, e),
    {
        let key: u64 = table + (idx as u64) * 8;
        self.words.insert(key, e.0);
    }

    /// Makes the table at `table` known to the manager, entry by entry.
    pub fn load_table(&mut self, table: u64, contents: &PageTable)
        requires
            table_address(table),
        ensures
            final(self)@.root == old(self)@.root,
            final(self)@.offset == old(self)@.offset,
            final(self)@.flushes == old(self)@.flushes,
            final(self)@.journal == old(self)@.journal,
            forall|i: int| 0 <= i < 512 ==> final(self)@.entry(table, i) == contents.entries[i],
            forall|i: int| 0 <= i < 512 ==> #[trigger] final(self)@.knows(table, i),
            forall|k: u64|
                !in_table(table, k) ==> final(self)@.words.contains_key(k) == old(
                    self,
                )@.words.contains_key(k) && final(self)@.words[k] == old(self)@.words[k],
    {
        let mut i: usize = 0;
        while i < 512
            invariant
                0 <= i <= 512,
                table_address(table),
                self@.root == old(self)@.root,
                self@.offset == old(self)@.offset,
                self@.flushes == old(self)@.flushes,
                self@.journal == old(self)@.journal,
                forall|j: int| 0 <= j < i ==> self@.entry(table, j) == contents.entries[j],
                forall|j: int| 0 <= j < i ==> #[trigger] self@.knows(table, j),
                forall|k: u64|
                    !in_table(table, k) ==> self@.words.contains_key(k) == old(
                        self,
                    )@.words.contains_key(k) && self@.words[k] == old(self)@.words[k],
            decreases 512 - i,
        {
            let ghost before = self@;
            self.load_entry(table, i, contents.entries[i]);
            proof {
                assert(in_table(table, slot(table, i as int)));
                assert forall|j: int| 0 <= j < i + 1 implies self@.entry(table, j)
                    == contents.entries[j] by {
                    if j < i {
                        assert(before.entry(table, j) == contents.entries[j]);
                        assert(slot(table, j) != slot(table, i as int));
                    }
                }
                assert forall|j: int| 0 <= j < i + 1 implies #[trigger] self@.knows(table, j) by {
                    if j < i {
                        assert(before.knows(table, j));
                    }
                }
            }
            i = i + 1;
        }
    }

    /// Clears all 512 entries of the table at `table`.
    pub fn zero_table(&mut self, table: u64)
        requires
            table_address(table),
        ensures
            final(self)@ == old(self)@.zeroed(table),
    {
        let mut i: usize = 0;
        while i < 512
            invariant
                0 <= i <= 512,
                table_address(table),
                self@.root == old(self)@.root,
                self@.offset == old(self)@.offset,
                self@.flushes == old(self)@.flushes,
                self@.journal == old(self)@.journal + Seq::new(
                    i as nat,
                    |k: int| (slot(table, k), 0u64),
                ),
                self@.words == Map::new(
                    |k: u64|
                        old(self)@.words.contains_key(k) || (in_table(table, k) && k < table + i
                            * 8),
                    |k: u64|
                        if in_table(table, k) && k < table + i * 8 {
                            0u64
                        } else {
                            old(self)@.words[k]
                        },
                ),
            decreases 512 - i,
        {
            self.write_entry(table, i, PageTableEntry(0));
            proof {
                let key = slot(table, i as int);
                assert(in_table(table, key));
                assert(self@.journal =~= old(self)@.journal + Seq::new(
                    (i + 1) as nat,
                    |k: int| (slot(table, k), 0u64),
                ));
                assert(self@.words =~= Map::new(
                    |k: u64|
                        old(self)@.words.contains_key(k) || (in_table(table, k) && k < table + (i
                            + 1) * 8),
                    |k: u64|
                        if in_table(table, k) && k < table + (i + 1) * 8 {
                            0u64
                        } else {
                            old(self)@.words[k]
                        },
                ));
            }
            i = i + 1;
        }
        proof {
            assert(self@.words =~= old(self)@.zeroed(table).words);
            assert(self@.journal =~= old(self)@.zeroed(table).journal);
        }
    }

    /// One step down the hierarchy, making the next table where there is
    /// none.
    fn descend(&mut self, table: u64, idx: usize, frame_alloc: &mut PhysicalFrameAllocator) -> (r:
        Option<u64>)
        requires
            table_address(table),
            idx < 512,
        ensures
            (final(self)@, final(frame_alloc)@, r) == old(self)@.descend(
                old(frame_alloc)@,
                table,
                idx as int,
            ),
            r matches Some(t) ==> table_address(t),
    {
        let e = self.read_entry(table, idx);
        if e.is_present() {
            Some(e.addr())
        } else {
            match frame_alloc.allocate_frame() {
                Some(fresh) => {
                    proof {
                        lemma_scan(old(frame_alloc)@, 0);
                        lemma_entry_fields(fresh, 3);
                        lemma_flag_bits(0);
                    }
                    let mut entry = PageTableEntry::new();
                    entry.set(fresh, PageTableFlags::kernel_flags());
                    self.write_entry(table, idx, entry);
                    self.zero_table(fresh);
                    Some(fresh)
                },
                None => None,
            }
        }
    }

    /// Maps the page of `virt_addr` to the frame of `phys_addr`. Missing
    /// tables are made on the way down, from frames of `frame_alloc`; they
    /// stay even when a later step fails. Both addresses are cut to their
    /// page.
    pub fn map(
        &mut self,
        virt_addr: u64,
        phys_addr: u64,
        flags: PageTableFlags,
        frame_alloc: &mut PhysicalFrameAllocator,
    ) -> (r: Result<(), PagingError>)
        ensures
            (final(self)@, final(frame_alloc)@, r) == old(self)@.map(
                old(frame_alloc)@,
                virt_addr,
                phys_addr,
                flags,
            ),
            old(self)@.wf(),
    {
        proof {
            lemma_index_bounds(virt_addr);
        }
        let l4_idx: usize = ((virt_addr >> 39u64) & 0x1FFu64) as usize;
        let l3_idx: usize = ((virt_addr >> 30u64) & 0x1FFu64) as usize;
        let l2_idx: usize = ((virt_addr >> 21u64) & 0x1FFu64) as usize;
        let l1_idx: usize = ((virt_addr >> 12u64) & 0x1FFu64) as usize;
        let root = self.root();
        let l3 = match self.descend(root, l4_idx, frame_alloc) {
            Some(t) => t,
            None => {
                return Err(PagingError::OutOfFrames);
            },
        };
        let l2 = match self.descend(l3, l3_idx, frame_alloc) {
            Some(t) => t,
            None => {
                return Err(PagingError::OutOfFrames);
            },
        };
        let l1 = match self.descend(l2, l2_idx, frame_alloc) {
            Some(t) => t,
            None => {
                return Err(PagingError::OutOfFrames);
            },
        };
        if self.read_entry(l1, l1_idx).is_present() {
            return Err(PagingError::AlreadyMapped);
        }
        let mut entry = PageTableEntry::new();
        entry.set(phys_addr, flags);
        self.write_entry(l1, l1_idx, entry);
        self.flushes.push(virt_addr);
        Ok(())
    }

    /// Unmaps the page of `virt_addr`: clears its leaf entry, notes the
    /// stale translation and gives the frame back to `frame_alloc`.
    /// Returns the frame's physical address.
    pub fn unmap(&mut self, virt_addr: u64, frame_alloc: &mut PhysicalFrameAllocator) -> (r: Result<
        u64,
        PagingError,
    >)
        ensures
            (final(self)@, final(frame_alloc)@, r) == old(self)@.unmap(
                old(frame_alloc)@,
                virt_addr,
            ),
            old(self)@.wf(),
    {
        proof {
            lemma_index_bounds(virt_addr);
        }
        let l4_idx: usize = ((virt_addr >> 39u64) & 0x1FFu64) as usize;
        let l3_idx: usize = ((virt_addr >> 30u64) & 0x1FFu64) as usize;
        let l2_idx: usize = ((virt_addr >> 21u64) & 0x1FFu64) as usize;
        let l1_idx: usize = ((virt_addr >> 12u64) & 0x1FFu64) as usize;
        let root = self.root();
        let e4 = self.read_entry(root, l4_idx);
        if !e4.is_present() {
            return Err(PagingError::NotMapped { level: 4 });
        }
        let e3 = self.read_entry(e4.addr(), l3_idx);
        if !e3.is_present() {
            return Err(PagingError::NotMapped { level: 3 });
        }
        let e2 = self.read_entry(e3.addr(), l2_idx);
        if !e2.is_present() {
            return Err(PagingError::NotMapped { level: 2 });
        }
        let l1 = e2.addr();
        let e1 = self.read_entry(l1, l1_idx);
        if !e1.is_present() {
            return Err(PagingError::NotMapped { level: 1 });
        }
        let phys_addr = e1.addr();
        self.write_entry(l1, l1_idx, PageTableEntry(0));
        self.flushes.push(virt_addr);
        frame_alloc.free_frame(phys_addr);
        Ok(phys_addr)
    }

    /// Whether the allocator will never hand out the frame at `addr`.
    pub fn is_reserved(frames: &PhysicalFrameAllocator, addr: u64) -> (r: bool)
        ensures
            r == reserved(frames@, addr),
    {
        let frame: u64 = addr / 4096;
        if frame >= 65536 {
            true
        } else {
            !frames.is_free(frame as usize)
        }
    }

    /// Whether the tables on the way down to `virt_addr` are sound: they
    /// are different frames, and `frames` hands out none of them. Mapping
    /// and unmapping the page do what they are meant to do where this
    /// holds.
    pub fn path_is_reserved(&self, virt_addr: u64, frames: &PhysicalFrameAllocator) -> (r: bool)
        ensures
            r == path_reserved(self@, frames@, virt_addr),
    {
        proof {
            lemma_index_bounds(virt_addr);
        }
        let l4_idx: usize = ((virt_addr >> 39u64) & 0x1FFu64) as usize;
        let l3_idx: usize = ((virt_addr >> 30u64) & 0x1FFu64) as usize;
        let l2_idx: usize = ((virt_addr >> 21u64) & 0x1FFu64) as usize;
        let root = self.root();
        if !Self::is_reserved(frames, root) {
            return false;
        }
        let e4 = self.read_entry(root, l4_idx);
        if !e4.is_present() {
            return true;
        }
        let l3 = e4.addr();
        if !Self::is_reserved(frames, l3) || l3 == root {
            return false;
        }
        let e3 = self.read_entry(l3, l3_idx);
        if !e3.is_present() {
            return true;
        }
        let l2 = e3.addr();
        if !Self::is_reserved(frames, l2) || l2 == root || l2 == l3 {
            return false;
        }
        let e2 = self.read_entry(l2, l2_idx);
        if !e2.is_present() {
            return true;
        }
        let l1 = e2.addr();
        Self::is_reserved(frames, l1) && l1 != root && l1 != l3 && l1 != l2
    }

    /// Whether entry `idx` of the table at `table` is known.
    pub fn knows_entry(&self, table: u64, idx: usize) -> (r: bool)
        requires
            table_address(table),
            idx < 512,
        ensures
            r == self@.knows(table, idx as int),
    {
        let key: u64 = table + (idx as u64) * 8;
        self.words.get(&key).is_some()
    }

    /// The first table on the way down to `virt_addr` whose entry for it
    /// is not known, to be read in from memory with `load_table`.
    pub fn unknown_table(&self, virt_addr: u64) -> (r: Option<u64>)
        ensures
            r == self@.unknown_table(virt_addr),
            r matches Some(t) ==> table_address(t),
    {
        proof {
            lemma_index_bounds(virt_addr);
        }
        let l4_idx: usize = ((virt_addr >> 39u64) & 0x1FFu64) as usize;
        let l3_idx: usize = ((virt_addr >> 30u64) & 0x1FFu64) as usize;
        let l2_idx: usize = ((virt_addr >> 21u64) & 0x1FFu64) as usize;
        let l1_idx: usize = ((virt_addr >> 12u64) & 0x1FFu64) as usize;
        let root = self.root();
        if !self.knows_entry(root, l4_idx) {
            return Some(root);
        }
        let e4 = self.read_entry(root, l4_idx);
        if !e4.is_present() {
            return None;
        }
        let l3 = e4.addr();
        if !self.knows_entry(l3, l3_idx) {
            return Some(l3);
        }
        let e3 = self.read_entry(l3, l3_idx);
        if !e3.is_present() {
            return None;
        }
        let l2 = e3.addr();
        if !self.knows_entry(l2, l2_idx) {
            return Some(l2);
        }
        let e2 = self.read_entry(l2, l2_idx);
        if !e2.is_present() {
            return None;
        }
        let l1 = e2.addr();
        if !self.knows_entry(l1, l1_idx) {
            return Some(l1);
        }
        None
    }

    /// The leaf entry that translates `virt_addr`, if there is one.
    pub fn walk(&self, virt_addr: u64) -> (r: Option<PageTableEntry>)
        ensures
            r == self@.walk(virt_addr),
    {
        proof {
            lemma_index_bounds(virt_addr);
        }
        let l4_idx: usize = ((virt_addr >> 39u64) & 0x1FFu64) as usize;
        let l3_idx: usize = ((virt_addr >> 30u64) & 0x1FFu64) as usize;
        let l2_idx: usize = ((virt_addr >> 21u64) & 0x1FFu64) as usize;
        let l1_idx: usize = ((virt_addr >> 12u64) & 0x1FFu64) as usize;
        let root = self.root();
        let e4 = self.read_entry(root, l4_idx);
        if !e4.is_present() {
            return None;
        }
        let e3 = self.read_entry(e4.addr(), l3_idx);
        if !e3.is_present() {
            return None;
        }
        let e2 = self.read_entry(e3.addr(), l2_idx);
        if !e2.is_present() {
            return None;
        }
        let e1 = self.read_entry(e2.addr(), l1_idx);
        if e1.is_present() {
            Some(e1)
        } else {
            None
        }
    }

    /// Hands over the words written since the last call, oldest first, and
    /// forgets them.
    pub fn take_writes(&mut self) -> (r: Vec<(u64, u64)>)
        ensures
            r@ == old(self)@.journal,
            final(self)@ == (PagingState { journal: Seq::<(u64, u64)>::empty(), ..old(self)@ }),
    {
        let mut out: Vec<(u64, u64)> = Vec::new();
        std::mem::swap(&mut self.journal, &mut out);
        out
    }

    /// Hands over the addresses whose translation has to be dropped, oldest
    /// first, and forgets them.
    pub fn take_flushes(&mut self) -> (r: Vec<u64>)
        ensures
            r@ == old(self)@.flushes,
            final(self)@ == (PagingState { flushes: Seq::<u64>::empty(), ..old(self)@ }),
    {
        let mut out: Vec<u64> = Vec::new();
        std::mem::swap(&mut self.flushes, &mut out);
        out
    }
}

} // verus!
