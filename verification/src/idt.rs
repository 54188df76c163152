//! The interrupt descriptor table: 256 descriptors, one per vector, each naming
//! the entry point of a trap stub.

use vstd::prelude::*;

verus! {

/// Number of vectors.
pub const IDT_ENTRIES: usize = 256;

/// Number of vectors that have a trap stub of their own: the 32 CPU
/// exceptions and the 16 hardware lines.
pub const STUB_COUNT: usize = 48;

/// Attributes of every installed vector: present, ring 0, 32-bit
/// interrupt descriptor.
pub const ATTR_INTERRUPT: u8 = 0x8E;

/// The present bit of the attributes.
pub const ATTR_PRESENT: u8 = 0x80;

/// Size of one entry in bytes.
pub const ENTRY_SIZE: usize = 8;

/// The limit that goes into the table register: size of the table less
/// one.
pub const IDT_LIMIT: u16 = 2047;

/// How an address splits into halves and comes together again, and how a
/// 16-bit value splits into bytes.
pub proof fn lemma_halves(a: u32)
    by (bit_vector)
    ensures
        (((((a >> 16u32) & 0xFFFFu32) as u16) as u32) << 16u32) | (((a & 0xFFFFu32) as u16) as u32)
            == a,
{
}

pub proof fn lemma_bytes16(x: u16)
    by (bit_vector)
    ensures
        ((((x >> 8u16) as u8) as u16) << 8u16) | (((x & 0xFFu16) as u8) as u16) == x,
{
}

pub proof fn lemma_bytes32(x: u32)
    by (bit_vector)
    ensures
        (((((x >> 24u32) & 0xFFu32) as u8) as u32) << 24u32) | (((((x >> 16u32) & 0xFFu32) as u8) as u32)
            << 16u32) | (((((x >> 8u32) & 0xFFu32) as u8) as u32) << 8u32) | (((x & 0xFFu32) as u8) as u32)
            == x,
{
}

/// One entry of the table.
#[derive(Copy, Clone, Debug, PartialEq, Eq, Structural)]
pub struct IdtEntry {
    pub offset_low: u16,
    pub selector: u16,
    pub zero: u8,
    pub flags: u8,
    pub offset_high: u16,
}

impl IdtEntry {
    /// The handler address that the entry holds.
    pub open spec fn address(self) -> u32 {
        ((self.offset_high as u32) << 16u32) | (self.offset_low as u32)
    }

    /// Whether the entry is marked present.
    pub open spec fn present(self) -> bool {
        self.flags & ATTR_PRESENT != 0
    }

    /// The entry for `handler` with the given selector and attributes.
    pub open spec fn descriptor_for(handler: u32, selector: u16, flags: u8) -> IdtEntry {
        IdtEntry {
            offset_low: (handler & 0xFFFFu32) as u16,
            selector,
            zero: 0,
            flags,
            offset_high: ((handler >> 16u32) & 0xFFFFu32) as u16,
        }
    }

    /// The address put into an entry is the address read from it.
    pub proof fn lemma_descriptor_address(handler: u32, selector: u16, flags: u8)
        ensures
            Self::descriptor_for(handler, selector, flags).address() == handler,
    {
        lemma_halves(handler);
    }

    /// An entry that names no handler and is not present.
    pub fn missing() -> (r: Self)
        ensures
            r == (IdtEntry { offset_low: 0, selector: 0, zero: 0, flags: 0, offset_high: 0 }),
            !r.present(),
    {
        assert(0u8 & 0x80u8 == 0) by (bit_vector);
        IdtEntry { offset_low: 0, selector: 0, zero: 0, flags: 0, offset_high: 0 }
    }

    /// Points the entry at `handler`.
    pub fn set_handler(&mut self, handler: u32, selector: u16, flags: u8)
        ensures
            *final(self) == Self::descriptor_for(handler, selector, flags),
            final(self).address() == handler,
            final(self).selector == selector,
            final(self).flags == flags,
    {
        proof {
            lemma_halves(handler);
        }
        self.offset_low = (handler & 0xFFFF) as u16;
        self.selector = selector;
        self.zero = 0;
        self.flags = flags;
        self.offset_high = ((handler >> 16) & 0xFFFF) as u16;
    }

    /// The handler address, put together from its two halves.
    pub fn handler_address(&self) -> (r: u32)
        ensures
            r == self.address(),
    {
        ((self.offset_high as u32) << 16) | (self.offset_low as u32)
    }

    pub fn is_present(&self) -> (r: bool)
        ensures
            r == self.present(),
    {
        self.flags & ATTR_PRESENT != 0
    }

    /// The eight bytes of the entry as the CPU reads them.
    pub fn to_bytes(&self) -> (r: [u8; 8])
        ensures
            r[0] == (self.offset_low & 0xFF) as u8,
            r[1] == (self.offset_low >> 8) as u8,
            r[2] == (self.selector & 0xFF) as u8,
            r[3] == (self.selector >> 8) as u8,
            r[4] == self.zero,
            r[5] == self.flags,
            r[6] == (self.offset_high & 0xFF) as u8,
            r[7] == (self.offset_high >> 8) as u8,
    {
        [
            (self.offset_low & 0xFF) as u8,
            (self.offset_low >> 8) as u8,
            (self.selector & 0xFF) as u8,
            (self.selector >> 8) as u8,
            self.zero,
            self.flags,
            (self.offset_high & 0xFF) as u8,
            (self.offset_high >> 8) as u8,
        ]
    }
}

/// What goes into the CPU's table register: where the table lies and how
/// long it is.
#[derive(Copy, Clone, Debug, PartialEq, Eq, Structural)]
pub struct IdtDescriptor {
    pub limit: u16,
    pub base: u32,
}

/// A table register that does not hold what was loaded into it.
#[derive(Copy, Clone, Debug, PartialEq, Eq, Structural)]
pub struct HardwareProtocolViolation {
    pub expected: IdtDescriptor,
    pub found: IdtDescriptor,
}

impl IdtDescriptor {
    /// The six bytes of the descriptor: limit, then base, low byte first.
    pub fn to_bytes(&self) -> (r: [u8; 6])
        ensures
            Self::decoded(r@) == *self,
    {
        proof {
            lemma_bytes16(self.limit);
            lemma_bytes32(self.base);
        }
        [
            (self.limit & 0xFF) as u8,
            (self.limit >> 8) as u8,
            (self.base & 0xFF) as u8,
            ((self.base >> 8) & 0xFF) as u8,
            ((self.base >> 16) & 0xFF) as u8,
            ((self.base >> 24) & 0xFF) as u8,
        ]
    }

    /// The descriptor that six bytes stand for.
    pub open spec fn decoded(bytes: Seq<u8>) -> IdtDescriptor {
        IdtDescriptor {
            limit: ((bytes[1] as u16) << 8u16) | (bytes[0] as u16),
            base: ((bytes[5] as u32) << 24u32) | ((bytes[4] as u32) << 16u32) | ((bytes[3] as u32)
                << 8u32) | (bytes[2] as u32),
        }
    }

    /// Reads a descriptor from the six bytes that the CPU stores.
    pub fn from_bytes(bytes: &[u8; 6]) -> (r: Self)
        ensures
            r == Self::decoded(bytes@),
    {
        IdtDescriptor {
            limit: ((bytes[1] as u16) << 8) | (bytes[0] as u16),
            base: ((bytes[5] as u32) << 24) | ((bytes[4] as u32) << 16) | ((bytes[3] as u32) << 8) | (
            bytes[2] as u32),
        }
    }

    /// Holds what the CPU stored from its table register against what was
    /// loaded.
    pub fn verify_readback(&self, readback: &[u8; 6]) -> (r: Result<(), HardwareProtocolViolation>)
        ensures
            Self::decoded(readback@) == *self ==> r is Ok,
            Self::decoded(readback@) != *self ==> r == Err::<(), HardwareProtocolViolation>(
                HardwareProtocolViolation { expected: *self, found: Self::decoded(readback@) },
            ),
    {
        let found = Self::from_bytes(readback);
        if found.limit == self.limit && found.base == self.base {
            Ok(())
        } else {
            Err(HardwareProtocolViolation { expected: *self, found })
        }
    }
}

/// The table.
pub struct Idt {
    pub entries: [IdtEntry; 256],
}

impl Idt {
    /// A table in which no vector has a handler.
    pub fn new() -> (r: Self)
        ensures
            forall|v: int| 0 <= v < 256 ==> !(#[trigger] r.entries[v]).present(),
            forall|v: int|
                0 <= v < 256 ==> #[trigger] r.entries[v] == (IdtEntry {
                    offset_low: 0,
                    selector: 0,
                    zero: 0,
                    flags: 0,
                    offset_high: 0,
                }),
    {
        let e = IdtEntry::missing();
        Idt { entries: [e; 256] }
    }

    /// Writes the entry of `vector`; every other entry stays.
    pub fn set_entry(&mut self, vector: u8, handler_address: u32, selector: u16, attributes: u8)
        ensures
            final(self).entries[vector as int] == IdtEntry::descriptor_for(
                handler_address,
                selector,
                attributes,
            ),
            final(self).entries[vector as int].address() == handler_address,
            forall|v: int|
                0 <= v < 256 && v != vector ==> final(self).entries[v] == old(self).entries[v],
    {
        let mut e = IdtEntry::missing();
        e.set_handler(handler_address, selector, attributes);
        self.entries[vector as usize] = e;
    }

    /// The entry of `vector`.
    pub fn entry(&self, vector: u8) -> (r: IdtEntry)
        ensures
            r == self.entries[vector as int],
    {
        self.entries[vector as usize]
    }

    /// The first vector without a present entry, if there is one. A table
    /// is fit to be loaded when there is none.
    pub fn missing_vector(&self) -> (r: Option<u8>)
        ensures
            match r {
                Some(v) => !self.entries[v as int].present() && forall|w: int|
                    0 <= w < v ==> (#[trigger] self.entries[w]).present(),
                None => forall|w: int| 0 <= w < 256 ==> (#[trigger] self.entries[w]).present(),
            },
    {
        let mut v: usize = 0;
        while v < 256
            invariant
                0 <= v <= 256,
                forall|w: int| 0 <= w < v ==> (#[trigger] self.entries[w]).present(),
            decreases 256 - v,
        {
            if !self.entries[v].is_present() {
                return Some(v as u8);
            }
            v = v + 1;
        }
        None
    }

    /// What to load into the table register for a table that lies at
    /// `base`.
    pub fn descriptor(&self, base: u32) -> (r: IdtDescriptor)
        ensures
            r == (IdtDescriptor { limit: IDT_LIMIT, base }),
    {
        IdtDescriptor { limit: IDT_LIMIT, base }
    }
}

/// The handler that the finished table names for `vector`: its own stub for
/// the first 48 vectors, the catch-all for the rest.
pub open spec fn installed_handler(stubs: Seq<u32>, default_handler: u32, vector: int) -> u32 {
    if vector < STUB_COUNT {
        stubs[vector]
    } else {
        default_handler
    }
}

/// Builds the table: vectors 0 to 47 get their stubs, every other vector
/// the catch-all handler, all as present interrupt descriptors in the kernel's
/// code segment. No vector is left without a handler.
pub fn init(stubs: &[u32; 48], default_handler: u32, kernel_selector: u16) -> (r: Idt)
    ensures
        forall|v: int|
            0 <= v < 256 ==> {
                &&& (#[trigger] r.entries[v]).address() == installed_handler(
                    stubs@,
                    default_handler,
                    v,
                )
                &&& r.entries[v].present()
                &&& r.entries[v].selector == kernel_selector
                &&& r.entries[v].flags == ATTR_INTERRUPT
                &&& r.entries[v].zero == 0
            },
{
    assert(0x8Eu8 & 0x80u8 != 0) by (bit_vector);
    let mut idt = Idt::new();
    let mut v: usize = 0;
    while v < 256
        invariant
            0 <= v <= 256,
            0x8Eu8 & 0x80u8 != 0,
            forall|w: int|
                0 <= w < v ==> {
                    &&& (#[trigger] idt.entries[w]).address() == installed_handler(
                        stubs@,
                        default_handler,
                        w,
                    )
                    &&& idt.entries[w].present()
                    &&& idt.entries[w].selector == kernel_selector
                    &&& idt.entries[w].flags == ATTR_INTERRUPT
                    &&& idt.entries[w].zero == 0
                },
        decreases 256 - v,
    {
        let handler = if v < 48 {
            stubs[v]
        } else {
            default_handler
        };
        idt.set_entry(v as u8, handler, kernel_selector, ATTR_INTERRUPT);
        v = v + 1;
    }
    idt
}

} // verus!
