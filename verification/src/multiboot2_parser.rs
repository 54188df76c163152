//! The tags of the multiboot2 information block, field by field, and what
//! a framebuffer tag says about where a pixel lies and how it is coded.

use vstd::prelude::*;

verus! {

/// Header of the information block.
#[derive(Copy, Clone, Debug, PartialEq, Eq, Structural)]
pub struct MultibootInfo {
    pub total_size: u32,
    pub reserved: u32,
}

/// Header of every tag.
#[derive(Copy, Clone, Debug, PartialEq, Eq, Structural)]
pub struct MultibootTag {
    pub typ: u32,
    pub size: u32,
}

/// The framebuffer tag.
#[derive(Copy, Clone, Debug, PartialEq, Eq, Structural)]
pub struct FramebufferTag {
    pub typ: u32,
    pub size: u32,
    pub addr: u64,
    pub pitch: u32,
    pub width: u32,
    pub height: u32,
    pub bpp: u8,
    pub kind: u8,
    pub reserved: u16,
    pub red_field_position: u32,
    pub red_mask_size: u32,
    pub green_field_position: u32,
    pub green_mask_size: u32,
    pub blue_field_position: u32,
    pub blue_mask_size: u32,
}

/// The tag that holds the command line; the text follows the header.
#[derive(Copy, Clone, Debug, PartialEq, Eq, Structural)]
pub struct CommandLineTag {
    pub typ: u32,
    pub size: u32,
}

/// The tag that holds the boot loader's name; the text follows the
/// header.
#[derive(Copy, Clone, Debug, PartialEq, Eq, Structural)]
pub struct BootLoaderNameTag {
    pub typ: u32,
    pub size: u32,
}

/// The tag that tells how much memory lies below and above 1 MiB.
#[derive(Copy, Clone, Debug, PartialEq, Eq, Structural)]
pub struct BasicMemoryInfoTag {
    pub typ: u32,
    pub size: u32,
    pub mem_lower: u32,
    pub mem_upper: u32,
}

/// Header of the memory map; the entries follow.
#[derive(Copy, Clone, Debug, PartialEq, Eq, Structural)]
pub struct MemoryMapTag {
    pub typ: u32,
    pub size: u32,
    pub entry_size: u32,
    pub entry_version: u32,
}

/// One entry of the memory map.
#[derive(Copy, Clone, Debug, PartialEq, Eq, Structural)]
pub struct MemoryMapEntry {
    pub base_addr: u64,
    pub length: u64,
    pub typ: u32,
    pub reserved: u32,
}

/// The framebuffer kind that is drawn to: direct RGB colour.
pub const KIND_RGB: u8 = 1;

impl MemoryMapTag {
    /// Number of entries that follow the header: what is left of the tag
    /// after its sixteen bytes, in whole entries.
    pub fn entry_count(&self) -> (r: Option<u32>)
        ensures
            r == (if self.entry_size == 0 || self.size < 16 {
                None
            } else {
                Some(((self.size - 16) / (self.entry_size as int)) as u32)
            }),
    {
        if self.entry_size == 0 || self.size < 16 {
            None
        } else {
            Some((self.size - 16) / self.entry_size)
        }
    }
}

impl MultibootTag {
    /// Distance from this tag to the next: the size, rounded up to a
    /// multiple of eight.
    pub fn stride(&self) -> (r: u64)
        ensures
            r == (self.size + 7) / 8 * 8,
    {
        (self.size as u64 + 7) / 8 * 8
    }
}

impl FramebufferTag {
    /// Whether pixel `(x, y)` can be drawn: it lies on the screen, and the
    /// framebuffer is of the RGB kind.
    pub open spec fn drawable(self, x: u32, y: u32) -> bool {
        x < self.width && y < self.height && self.kind == KIND_RGB
    }

    /// The word that shows the colour with the given channels, each
    /// channel moved to its place in the pixel.
    pub fn pixel_color(&self, red: u8, green: u8, blue: u8) -> (r: u32)
        requires
            self.red_field_position < 32,
            self.green_field_position < 32,
            self.blue_field_position < 32,
        ensures
            r == ((red as u32) << self.red_field_position) | ((green as u32)
                << self.green_field_position) | ((blue as u32) << self.blue_field_position),
    {
        ((red as u32) << self.red_field_position) | ((green as u32) << self.green_field_position) | (
        (blue as u32) << self.blue_field_position)
    }

    /// Where pixel `(x, y)` begins, in bytes from the start of the
    /// framebuffer, if it can be drawn and the place has a 32-bit offset.
    pub fn pixel_offset(&self, x: u32, y: u32) -> (r: Option<u32>)
        ensures
            r == (if self.drawable(x, y) && y * self.pitch + x * (self.bpp as int / 8) <= u32::MAX {
                Some((y * self.pitch + x * (self.bpp as int / 8)) as u32)
            } else {
                None
            }),
    {
        if x < self.width && y < self.height && self.kind == KIND_RGB {
            let depth: u8 = self.bpp / 8;
            assert(0 <= y * self.pitch <= 0xFFFF_FFFF * 0xFFFF_FFFF && 0 <= x * depth <= 0xFFFF_FFFF
                * 31) by (nonlinear_arith)
                requires
                    0 <= y <= 0xFFFF_FFFF,
                    0 <= self.pitch <= 0xFFFF_FFFF,
                    0 <= x <= 0xFFFF_FFFF,
                    0 <= depth <= 31,
            ;
            let row: u64 = (y as u64) * (self.pitch as u64);
            let col: u64 = (x as u64) * (depth as u64);
            match row.checked_add(col) {
                Some(at) => if at <= 0xFFFF_FFFF {
                    Some(at as u32)
                } else {
                    None
                },
                None => None,
            }
        } else {
            None
        }
    }
}

} // verus!
