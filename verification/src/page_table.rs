//! Bit layout of the entries of the 4-level paging hierarchy.

use vstd::prelude::*;

verus! {

/// The entry maps something.
pub const PRESENT: u64 = 0x1;

/// Writes are allowed.
pub const WRITABLE: u64 = 0x2;

/// User mode may touch the page.
pub const USER: u64 = 0x4;

/// Writes go straight to memory.
pub const WRITE_THROUGH: u64 = 0x8;

/// The page is not cached.
pub const NO_CACHE: u64 = 0x10;

/// Set by the CPU on a read of the page.
pub const ACCESSED: u64 = 0x20;

/// Set by the CPU on a write to the page.
pub const DIRTY: u64 = 0x40;

/// The entry maps a large page.
pub const HUGE: u64 = 0x80;

/// The translation survives an address-space switch.
pub const GLOBAL: u64 = 0x100;

/// Instruction fetches from the page fault.
pub const NO_EXECUTE: u64 = 0x8000_0000_0000_0000;

/// The bits of an entry that hold the physical address of a frame.
pub const ADDRESS_MASK: u64 = 0x000F_FFFF_FFFF_F000;

/// The bits of an entry that hold flags: the low twelve and no-execute.
pub const FLAGS_MASK: u64 = 0x8000_0000_0000_0FFF;

/// Number of entries of one table.
pub const ENTRIES_PER_TABLE: usize = 512;

/// How the fields of an entry sit beside each other: address and flags do
/// not overlap, and an address read back is page aligned.
pub proof fn lemma_entry_fields(addr: u64, flags: u64)
    by (bit_vector)
    ensures
        ((addr & 0x000F_FFFF_FFFF_F000u64) | (flags & 0x8000_0000_0000_0FFFu64))
            & 0x000F_FFFF_FFFF_F000u64 == addr & 0x000F_FFFF_FFFF_F000u64,
        ((addr & 0x000F_FFFF_FFFF_F000u64) | (flags & 0x8000_0000_0000_0FFFu64))
            & 0x8000_0000_0000_0FFFu64 == flags & 0x8000_0000_0000_0FFFu64,
        (((addr & 0x000F_FFFF_FFFF_F000u64) | (flags & 0x8000_0000_0000_0FFFu64)) & 1u64 != 0) == (
        flags & 1u64 != 0),
        (addr & 0x000F_FFFF_FFFF_F000u64) % 4096 == 0,
        (addr & 0x000F_FFFF_FFFF_F000u64) <= 0x000F_FFFF_FFFF_F000u64,
        (addr & 0x000F_FFFF_FFFF_F000u64) & 0x000F_FFFF_FFFF_F000u64 == addr
            & 0x000F_FFFF_FFFF_F000u64,
        (flags & 0x8000_0000_0000_0FFFu64) & 0x8000_0000_0000_0FFFu64 == flags
            & 0x8000_0000_0000_0FFFu64,
        addr < 0x1000_0000u64 && addr % 4096 == 0 ==> addr & 0x000F_FFFF_FFFF_F000u64 == addr,
{
}

/// What setting and clearing the two lowest flag bits does to them.
pub proof fn lemma_flag_bits(w: u64)
    by (bit_vector)
    ensures
        (w | 1u64) & 1u64 != 0,
        (w & !1u64) & 1u64 == 0,
        (w | 1u64) & 2u64 == w & 2u64,
        (w & !1u64) & 2u64 == w & 2u64,
        (w | 2u64) & 2u64 != 0,
        (w & !2u64) & 2u64 == 0,
        (w | 2u64) & 1u64 == w & 1u64,
        (w & !2u64) & 1u64 == w & 1u64,
        3u64 & 1u64 != 0,
        3u64 & 2u64 != 0,
        0u64 & 1u64 == 0,
        0u64 & 2u64 == 0,
        3u64 & 0x8000_0000_0000_0FFFu64 == 3u64,
        1u64 | 2u64 == 3u64,
{
}

/// Flags of a page-table entry.
#[derive(Debug, Clone, Copy, PartialEq, Eq, Structural)]
pub struct PageTableFlags(pub u64);

impl PageTableFlags {
    pub open spec fn present(self) -> bool {
        self.0 & PRESENT != 0
    }

    pub open spec fn writable(self) -> bool {
        self.0 & WRITABLE != 0
    }

    /// No flag set.
    pub fn new() -> (r: Self)
        ensures
            r.0 == 0,
            !r.present(),
            !r.writable(),
    {
        proof {
            lemma_flag_bits(0);
        }
        PageTableFlags(0)
    }

    pub fn set_present(&mut self, present: bool)
        ensures
            final(self).0 == (if present {
                old(self).0 | PRESENT
            } else {
                old(self).0 & !PRESENT
            }),
            final(self).present() == present,
            final(self).writable() == old(self).writable(),
    {
        proof {
            lemma_flag_bits(self.0);
        }
        if present {
            self.0 = self.0 | PRESENT;
        } else {
            self.0 = self.0 & !PRESENT;
        }
    }

    pub fn set_writable(&mut self, writable: bool)
        ensures
            final(self).0 == (if writable {
                old(self).0 | WRITABLE
            } else {
                old(self).0 & !WRITABLE
            }),
            final(self).writable() == writable,
            final(self).present() == old(self).present(),
    {
        proof {
            lemma_flag_bits(self.0);
        }
        if writable {
            self.0 = self.0 | WRITABLE;
        } else {
            self.0 = self.0 & !WRITABLE;
        }
    }

    pub fn is_present(&self) -> (r: bool)
        ensures
            r == self.present(),
    {
        self.0 & PRESENT != 0
    }

    pub fn is_writable(&self) -> (r: bool)
        ensures
            r == self.writable(),
    {
        self.0 & WRITABLE != 0
    }

    /// Present and writable, supervisor only: what the kernel maps its own
    /// pages and tables with.
    pub fn kernel_flags() -> (r: Self)
        ensures
            r.0 == PRESENT | WRITABLE,
            r.0 == 3,
            r.present(),
            r.writable(),
    {
        proof {
            lemma_flag_bits(0);
        }
        PageTableFlags(PRESENT | WRITABLE)
    }
}

/// One entry of a page table: the address of a frame and flags.
#[derive(Debug, Clone, Copy, PartialEq, Eq, Structural)]
pub struct PageTableEntry(pub u64);

impl PageTableEntry {
    pub open spec fn present(self) -> bool {
        self.0 & PRESENT != 0
    }

    /// The physical address held, page aligned.
    pub open spec fn address(self) -> u64 {
        self.0 & ADDRESS_MASK
    }

    pub open spec fn flag_bits(self) -> PageTableFlags {
        PageTableFlags(self.0 & FLAGS_MASK)
    }

    /// The entry that holds `addr`, cut to its page, and `flags`.
    pub open spec fn of(addr: u64, flags: PageTableFlags) -> PageTableEntry {
        PageTableEntry((addr & ADDRESS_MASK) | (flags.0 & FLAGS_MASK))
    }

    /// What `of` builds reads back as it was given.
    pub proof fn lemma_of(addr: u64, flags: PageTableFlags)
        ensures
            Self::of(addr, flags).address() == addr & ADDRESS_MASK,
            Self::of(addr, flags).flag_bits().0 == flags.0 & FLAGS_MASK,
            Self::of(addr, flags).present() == flags.present(),
            Self::of(addr, flags).address() % 4096 == 0,
    {
        lemma_entry_fields(addr, flags.0);
    }

    /// The empty entry: nothing mapped.
    pub fn new() -> (r: Self)
        ensures
            r.0 == 0,
            !r.present(),
    {
        proof {
            lemma_flag_bits(0);
        }
        PageTableEntry(0)
    }

    pub fn is_present(&self) -> (r: bool)
        ensures
            r == self.present(),
    {
        self.0 & PRESENT != 0
    }

    pub fn flags(&self) -> (r: PageTableFlags)
        ensures
            r == self.flag_bits(),
    {
        PageTableFlags(self.0 & FLAGS_MASK)
    }

    pub fn addr(&self) -> (r: u64)
        ensures
            r == self.address(),
            r % 4096 == 0,
            r <= ADDRESS_MASK,
    {
        proof {
            lemma_entry_fields(self.0, 0);
        }
        self.0 & ADDRESS_MASK
    }

    /// Stores `addr`, cut to its page, together with `flags`.
    pub fn set(&mut self, addr: u64, flags: PageTableFlags)
        ensures
            *final(self) == Self::of(addr, flags),
            final(self).address() == addr & ADDRESS_MASK,
            final(self).flag_bits().0 == flags.0 & FLAGS_MASK,
            final(self).present() == flags.present(),
    {
        proof {
            lemma_entry_fields(addr, flags.0);
        }
        self.0 = (addr & ADDRESS_MASK) | (flags.0 & FLAGS_MASK);
    }

    pub fn clear(&mut self)
        ensures
            final(self).0 == 0,
            !final(self).present(),
    {
        proof {
            lemma_flag_bits(0);
        }
        self.0 = 0;
    }
}

/// A table of 512 entries, the size of one frame.
#[derive(Clone, Copy)]
pub struct PageTable {
    pub entries: [PageTableEntry; 512],
}

impl PageTable {
    /// Whether no entry of the table holds anything.
    pub open spec fn is_zero(&self) -> bool {
        forall|i: int| 0 <= i < 512 ==> (#[trigger] self.entries[i]).0 == 0
    }

    pub fn new() -> (r: Self)
        ensures
            r.is_zero(),
    {
        PageTable { entries: [PageTableEntry(0); 512] }
    }

    /// Clears every entry.
    pub fn zero(&mut self)
        ensures
            final(self).is_zero(),
    {
        let mut i: usize = 0;
        while i < 512
            invariant
                0 <= i <= 512,
                forall|j: int| 0 <= j < i ==> (#[trigger] self.entries[j]).0 == 0,
            decreases 512 - i,
        {
            self.entries[i].clear();
            i = i + 1;
        }
    }
}

} // verus!
