//! The interrupt descriptor table of long mode: 256 descriptors of 16
//! bytes, each naming the 64-bit entry point of a trap stub.

use vstd::prelude::*;
use crate::idt::{lemma_bytes16, ATTR_INTERRUPT, ATTR_PRESENT, STUB_COUNT};

verus! {

/// Size of one entry in bytes.
pub const ENTRY_SIZE_64: usize = 16;

/// The limit that goes into the table register: size of the table less
/// one.
pub const IDT_LIMIT_64: u16 = 4095;

/// How a 64-bit address splits into three parts and comes together again.
pub proof fn lemma_parts(a: u64)
    by (bit_vector)
    ensures
        (((((a >> 32u64) & 0xFFFF_FFFFu64) as u32) as u64) << 32u64) | (((((a >> 16u64)
            & 0xFFFFu64) as u16) as u64) << 16u64) | (((a & 0xFFFFu64) as u16) as u64) == a,
{
}

/// How a 64-bit value splits into bytes and comes together again.
pub proof fn lemma_bytes64(x: u64)
    by (bit_vector)
    ensures
        (((((x >> 56u64) & 0xFFu64) as u8) as u64) << 56u64) | (((((x >> 48u64) & 0xFFu64) as u8) as u64)
            << 48u64) | (((((x >> 40u64) & 0xFFu64) as u8) as u64) << 40u64) | (((((x >> 32u64)
            & 0xFFu64) as u8) as u64) << 32u64) | (((((x >> 24u64) & 0xFFu64) as u8) as u64) << 24u64)
            | (((((x >> 16u64) & 0xFFu64) as u8) as u64) << 16u64) | (((((x >> 8u64) & 0xFFu64) as u8) as u64)
            << 8u64) | (((x & 0xFFu64) as u8) as u64) == x,
{
}

/// One entry of the table.
#[derive(Copy, Clone, Debug, PartialEq, Eq, Structural)]
pub struct IdtEntry64 {
    pub offset_low: u16,
    pub selector: u16,
    pub ist: u8,
    pub type_attr: u8,
    pub offset_mid: u16,
    pub offset_high: u32,
    pub reserved: u32,
}

impl IdtEntry64 {
    /// The handler address that the entry holds.
    pub open spec fn address(self) -> u64 {
        ((self.offset_high as u64) << 32u64) | ((self.offset_mid as u64) << 16u64) | (
        self.offset_low as u64)
    }

    /// Whether the entry is marked present.
    pub open spec fn present(self) -> bool {
        self.type_attr & ATTR_PRESENT != 0
    }

    /// The entry for `handler` with the given selector and attributes, on
    /// the stack in use.
    pub open spec fn descriptor_for(handler: u64, selector: u16, attributes: u8) -> IdtEntry64 {
        IdtEntry64 {
            offset_low: (handler & 0xFFFFu64) as u16,
            selector,
            ist: 0,
            type_attr: attributes,
            offset_mid: ((handler >> 16u64) & 0xFFFFu64) as u16,
            offset_high: ((handler >> 32u64) & 0xFFFF_FFFFu64) as u32,
            reserved: 0,
        }
    }

    /// The address put into an entry is the address read from it.
    pub proof fn lemma_descriptor_address(handler: u64, selector: u16, attributes: u8)
        ensures
            Self::descriptor_for(handler, selector, attributes).address() == handler,
    {
        lemma_parts(handler);
    }

    /// An entry that names no handler and is not present.
    pub fn missing() -> (r: Self)
        ensures
            r == (IdtEntry64 {
                offset_low: 0,
                selector: 0,
                ist: 0,
                type_attr: 0,
                offset_mid: 0,
                offset_high: 0,
                reserved: 0,
            }),
            !r.present(),
    {
        assert(0u8 & 0x80u8 == 0) by (bit_vector);
        IdtEntry64 {
            offset_low: 0,
            selector: 0,
            ist: 0,
            type_attr: 0,
            offset_mid: 0,
            offset_high: 0,
            reserved: 0,
        }
    }

    /// Points the entry at `handler`.
    pub fn set_handler(&mut self, handler: u64, selector: u16, attributes: u8)
        ensures
            *final(self) == Self::descriptor_for(handler, selector, attributes),
            final(self).address() == handler,
    {
        proof {
            lemma_parts(handler);
        }
        self.offset_low = (handler & 0xFFFF) as u16;
        self.selector = selector;
        self.ist = 0;
        self.type_attr = attributes;
        self.offset_mid = ((handler >> 16) & 0xFFFF) as u16;
        self.offset_high = ((handler >> 32) & 0xFFFF_FFFF) as u32;
        self.reserved = 0;
    }

    /// The handler address, put together from its three parts.
    pub fn handler_address(&self) -> (r: u64)
        ensures
            r == self.address(),
    {
        ((self.offset_high as u64) << 32) | ((self.offset_mid as u64) << 16) | (self.offset_low as u64)
    }

    pub fn is_present(&self) -> (r: bool)
        ensures
            r == self.present(),
    {
        self.type_attr & ATTR_PRESENT != 0
    }

    /// The sixteen bytes of the entry as the CPU reads them, low byte
    /// first in every field.
    pub fn to_bytes(&self) -> (r: [u8; 16])
        ensures
            r[0] == (self.offset_low & 0xFF) as u8,
            r[1] == (self.offset_low >> 8) as u8,
            r[2] == (self.selector & 0xFF) as u8,
            r[3] == (self.selector >> 8) as u8,
            r[4] == self.ist,
            r[5] == self.type_attr,
            r[6] == (self.offset_mid & 0xFF) as u8,
            r[7] == (self.offset_mid >> 8) as u8,
            r[8] == (self.offset_high & 0xFF) as u8,
            r[9] == ((self.offset_high >> 8) & 0xFF) as u8,
            r[10] == ((self.offset_high >> 16) & 0xFF) as u8,
            r[11] == ((self.offset_high >> 24) & 0xFF) as u8,
            r[12] == (self.reserved & 0xFF) as u8,
            r[13] == ((self.reserved >> 8) & 0xFF) as u8,
            r[14] == ((self.reserved >> 16) & 0xFF) as u8,
            r[15] == ((self.reserved >> 24) & 0xFF) as u8,
    {
        [
            (self.offset_low & 0xFF) as u8,
            (self.offset_low >> 8) as u8,
            (self.selector & 0xFF) as u8,
            (self.selector >> 8) as u8,
            self.ist,
            self.type_attr,
            (self.offset_mid & 0xFF) as u8,
            (self.offset_mid >> 8) as u8,
            (self.offset_high & 0xFF) as u8,
            ((self.offset_high >> 8) & 0xFF) as u8,
            ((self.offset_high >> 16) & 0xFF) as u8,
            ((self.offset_high >> 24) & 0xFF) as u8,
            (self.reserved & 0xFF) as u8,
            ((self.reserved >> 8) & 0xFF) as u8,
            ((self.reserved >> 16) & 0xFF) as u8,
            ((self.reserved >> 24) & 0xFF) as u8,
        ]
    }
}

/// What goes into the CPU's table register: where the table lies and how
/// long it is.
#[derive(Copy, Clone, Debug, PartialEq, Eq, Structural)]
pub struct IdtDescriptor64 {
    pub limit: u16,
    pub base: u64,
}

/// A table register that does not hold what was loaded into it.
#[derive(Copy, Clone, Debug, PartialEq, Eq, Structural)]
pub struct TableMismatch {
    pub expected: IdtDescriptor64,
    pub found: IdtDescriptor64,
}

impl IdtDescriptor64 {
    /// The descriptor that ten bytes stand for: limit, then base, low
    /// byte first.
    pub open spec fn decoded(bytes: Seq<u8>) -> IdtDescriptor64 {
        IdtDescriptor64 {
            limit: ((bytes[1] as u16) << 8u16) | (bytes[0] as u16),
            base: ((bytes[9] as u64) << 56u64) | ((bytes[8] as u64) << 48u64) | ((bytes[7] as u64)
                << 40u64) | ((bytes[6] as u64) << 32u64) | ((bytes[5] as u64) << 24u64) | ((
            bytes[4] as u64) << 16u64) | ((bytes[3] as u64) << 8u64) | (bytes[2] as u64),
        }
    }

    /// The ten bytes of the descriptor.
    pub fn to_bytes(&self) -> (r: [u8; 10])
        ensures
            Self::decoded(r@) == *self,
    {
        proof {
            lemma_bytes16(self.limit);
            lemma_bytes64(self.base);
        }
        [
            (self.limit & 0xFF) as u8,
            (self.limit >> 8) as u8,
            (self.base & 0xFF) as u8,
            ((self.base >> 8) & 0xFF) as u8,
            ((self.base >> 16) & 0xFF) as u8,
            ((self.base >> 24) & 0xFF) as u8,
            ((self.base >> 32) & 0xFF) as u8,
            ((self.base >> 40) & 0xFF) as u8,
            ((self.base >> 48) & 0xFF) as u8,
            ((self.base >> 56) & 0xFF) as u8,
        ]
    }

    /// Reads a descriptor from the ten bytes that the CPU stores.
    pub fn from_bytes(bytes: &[u8; 10]) -> (r: Self)
        ensures
            r == Self::decoded(bytes@),
    {
        IdtDescriptor64 {
            limit: ((bytes[1] as u16) << 8) | (bytes[0] as u16),
            base: ((bytes[9] as u64) << 56) | ((bytes[8] as u64) << 48) | ((bytes[7] as u64) << 40) | ((
            bytes[6] as u64) << 32) | ((bytes[5] as u64) << 24) | ((bytes[4] as u64) << 16) | ((
            bytes[3] as u64) << 8) | (bytes[2] as u64),
        }
    }

    /// Holds what the CPU stored from its table register against what was
    /// loaded.
    pub fn verify_readback(&self, readback: &[u8; 10]) -> (r: Result<(), TableMismatch>)
        ensures
            Self::decoded(readback@) == *self ==> r is Ok,
            Self::decoded(readback@) != *self ==> r == Err::<(), TableMismatch>(
                TableMismatch { expected: *self, found: Self::decoded(readback@) },
            ),
    {
        let found = Self::from_bytes(readback);
        if found.limit == self.limit && found.base == self.base {
            Ok(())
        } else {
            Err(TableMismatch { expected: *self, found })
        }
    }
}

/// Whether the table register, stored in `readback`, names a table of
/// 256 entries that lies somewhere.
pub fn verify_idt_entries_64bit(readback: &[u8; 10]) -> (r: bool)
    ensures
        r == (IdtDescriptor64::decoded(readback@).base != 0 && IdtDescriptor64::decoded(
            readback@,
        ).limit == IDT_LIMIT_64),
{
    let found = IdtDescriptor64::from_bytes(readback);
    found.base != 0 && found.limit == IDT_LIMIT_64
}

/// The table.
pub struct Idt64 {
    pub entries: [IdtEntry64; 256],
}

/// The handler that the finished table names for `vector`: its own stub
/// for the first 48 vectors, the catch-all for the rest.
pub open spec fn installed_handler(stubs: Seq<u64>, default_handler: u64, vector: int) -> u64 {
    if vector < STUB_COUNT {
        stubs[vector]
    } else {
        default_handler
    }
}

impl Idt64 {
    /// A table in which no vector has a handler.
    pub fn new() -> (r: Self)
        ensures
            forall|v: int| 0 <= v < 256 ==> !(#[trigger] r.entries[v]).present(),
            forall|v: int| 0 <= v < 256 ==> (#[trigger] r.entries[v]).address() == 0,
    {
        let e = IdtEntry64::missing();
        assert(e.address() == 0) by {
            assert(((0u32 as u64) << 32u64) | ((0u16 as u64) << 16u64) | (0u16 as u64) == 0)
                by (bit_vector);
        }
        Idt64 { entries: [e; 256] }
    }

    /// Writes the entry of `vector`; every other entry stays.
    pub fn set_entry(&mut self, vector: u8, handler_address: u64, selector: u16, attributes: u8)
        ensures
            final(self).entries[vector as int] == IdtEntry64::descriptor_for(
                handler_address,
                selector,
                attributes,
            ),
            final(self).entries[vector as int].address() == handler_address,
            forall|v: int|
                0 <= v < 256 && v != vector ==> final(self).entries[v] == old(self).entries[v],
    {
        let mut e = IdtEntry64::missing();
        e.set_handler(handler_address, selector, attributes);
        self.entries[vector as usize] = e;
    }

    /// The entry of `vector`.
    pub fn entry(&self, vector: u8) -> (r: IdtEntry64)
        ensures
            r == self.entries[vector as int],
    {
        self.entries[vector as usize]
    }

    /// The first vector without a present entry, if there is one. A table
    /// is fit to be loaded when there is none.
    pub fn missing_vector(&self) -> (r: Option<u8>)
        ensures
            match r {
                Some(v) => !self.entries[v as int].present() && forall|w: int|
                    0 <= w < v ==> (#[trigger] self.entries[w]).present(),
                None => forall|w: int| 0 <= w < 256 ==> (#[trigger] self.entries[w]).present(),
            },
    {
        let mut v: usize = 0;
        while v < 256
            invariant
                0 <= v <= 256,
                forall|w: int| 0 <= w < v ==> (#[trigger] self.entries[w]).present(),
            decreases 256 - v,
        {
            if !self.entries[v].is_present() {
                return Some(v as u8);
            }
            v = v + 1;
        }
        None
    }

    /// What to load into the table register for a table that lies at
    /// `base`.
    pub fn descriptor(&self, base: u64) -> (r: IdtDescriptor64)
        ensures
            r == (IdtDescriptor64 { limit: IDT_LIMIT_64, base }),
    {
        IdtDescriptor64 { limit: IDT_LIMIT_64, base }
    }
}

/// Builds the table: vectors 0 to 47 get their stubs, every other vector
/// the catch-all handler, all as present interrupt descriptors in the
/// kernel's code segment. No vector is left without a handler.
pub fn init(stubs: &[u64; 48], default_handler: u64, kernel_selector: u16) -> (r: Idt64)
    ensures
        forall|v: int|
            0 <= v < 256 ==> {
                &&& (#[trigger] r.entries[v]).address() == installed_handler(
                    stubs@,
                    default_handler,
                    v,
                )
                &&& r.entries[v].present()
                &&& r.entries[v].selector == kernel_selector
                &&& r.entries[v].type_attr == ATTR_INTERRUPT
                &&& r.entries[v].ist == 0
                &&& r.entries[v].reserved == 0
            },
{
    assert(0x8Eu8 & 0x80u8 != 0) by (bit_vector);
    let mut idt = Idt64::new();
    let mut v: usize = 0;
    while v < 256
        invariant
            0 <= v <= 256,
            0x8Eu8 & 0x80u8 != 0,
            forall|w: int|
                0 <= w < v ==> {
                    &&& (#[trigger] idt.entries[w]).address() == installed_handler(
                        stubs@,
                        default_handler,
                        w,
                    )
                    &&& idt.entries[w].present()
                    &&& idt.entries[w].selector == kernel_selector
                    &&& idt.entries[w].type_attr == ATTR_INTERRUPT
                    &&& idt.entries[w].ist == 0
                    &&& idt.entries[w].reserved == 0
                },
        decreases 256 - v,
    {
        let handler = if v < 48 {
            stubs[v]
        } else {
            default_handler
        };
        idt.set_entry(v as u8, handler, kernel_selector, ATTR_INTERRUPT);
        v = v + 1;
    }
    idt
}

} // verus!
