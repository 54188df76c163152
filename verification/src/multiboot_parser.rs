//! Finds the framebuffer in the information block that a multiboot2 boot
//! loader leaves behind: an eight-byte header and a list of tags, each
//! padded to eight bytes.

use vstd::prelude::*;

verus! {

/// Type of the tag that describes the framebuffer.
pub const TAG_FRAMEBUFFER: u32 = 8;

/// Type of the tag that ends the list.
pub const TAG_END: u32 = 0;

/// Size of the header of the block and of the header of a tag.
pub const HEADER_SIZE: usize = 8;

/// Bytes of a framebuffer tag that are read: up to the bits per pixel.
pub const FRAMEBUFFER_TAG_SIZE: usize = 29;

/// What the kernel needs to know of the framebuffer.
#[derive(Copy, Clone, Debug, PartialEq, Eq, Structural)]
pub struct Framebuffer {
    pub phys_addr: u64,
    pub pitch: usize,
    pub width: usize,
    pub height: usize,
    pub bpp: usize,
}

/// The 32-bit number whose four bytes lie at `at`, lowest first.
pub open spec fn u32_at(bytes: Seq<u8>, at: int) -> u32 {
    (bytes[at] + bytes[at + 1] * 0x100 + bytes[at + 2] * 0x1_0000 + bytes[at + 3] * 0x100_0000) as u32
}

/// The 64-bit number whose eight bytes lie at `at`, lowest first.
pub open spec fn u64_at(bytes: Seq<u8>, at: int) -> u64 {
    (u32_at(bytes, at) + u32_at(bytes, at + 4) * 0x1_0000_0000) as u64
}

/// `size` rounded up to a multiple of eight.
pub open spec fn padded(size: int) -> int {
    (size + 7) / 8 * 8
}

/// The framebuffer that the tag at `at` describes.
pub open spec fn framebuffer_at(bytes: Seq<u8>, at: int) -> Framebuffer {
    Framebuffer {
        phys_addr: u64_at(bytes, at + 8),
        pitch: u32_at(bytes, at + 16) as usize,
        width: u32_at(bytes, at + 20) as usize,
        height: u32_at(bytes, at + 24) as usize,
        bpp: bytes[at + 28] as usize,
    }
}

/// The framebuffer found by reading the tags from `offset` on, in a block
/// of `total` bytes. The search ends without a find at the end tag, at a
/// tag that does not fit the block, and at a framebuffer tag that does not
/// fit.
pub open spec fn search(bytes: Seq<u8>, total: int, offset: int) -> Option<Framebuffer>
    decreases total - offset,
{
    if offset < 0 || offset + HEADER_SIZE > total || total > bytes.len() {
        None
    } else {
        let typ = u32_at(bytes, offset);
        let size = u32_at(bytes, offset + 4);
        if typ == TAG_END && size == 8 {
            None
        } else if typ == TAG_FRAMEBUFFER {
            if offset + size > total || offset + FRAMEBUFFER_TAG_SIZE > total {
                None
            } else {
                Some(framebuffer_at(bytes, offset))
            }
        } else {
            let step = (size + 7) / 8 * 8;
            if step <= 0 || offset + step > total {
                None
            } else {
                search(bytes, total, offset + step)
            }
        }
    }
}

/// The framebuffer that the block describes, if it describes one: the
/// block says how long it is in its first four bytes, and the tags start
/// behind the header.
pub open spec fn framebuffer_of(bytes: Seq<u8>) -> Option<Framebuffer> {
    if bytes.len() < HEADER_SIZE || u32_at(bytes, 0) == 0 || u32_at(bytes, 0) > bytes.len() {
        None
    } else {
        search(bytes, u32_at(bytes, 0) as int, HEADER_SIZE as int)
    }
}

/// Reads four bytes as a number, lowest byte first.
pub fn read_u32(bytes: &[u8], at: usize) -> (r: u32)
    requires
        at + 4 <= bytes@.len(),
    ensures
        r == u32_at(bytes@, at as int),
{
    (bytes[at] as u32) + (bytes[at + 1] as u32) * 0x100 + (bytes[at + 2] as u32) * 0x1_0000 + (
    bytes[at + 3] as u32) * 0x100_0000
}

/// Reads eight bytes as a number, lowest byte first.
pub fn read_u64(bytes: &[u8], at: usize) -> (r: u64)
    requires
        at + 8 <= bytes@.len(),
    ensures
        r == u64_at(bytes@, at as int),
{
    let len = bytes.len();
    (read_u32(bytes, at) as u64) + (read_u32(bytes, at + 4) as u64) * 0x1_0000_0000
}

/// Finds the framebuffer in the information block `bytes`.
pub fn find_framebuffer(bytes: &[u8]) -> (r: Option<Framebuffer>)
    ensures
        r == framebuffer_of(bytes@),
{
    if bytes.len() < HEADER_SIZE {
        return None;
    }
    let total_size: usize = read_u32(bytes, 0) as usize;
    if total_size == 0 || total_size > bytes.len() {
        return None;
    }
    if total_size < 2 * HEADER_SIZE {
        return None;
    }
    let mut offset: usize = HEADER_SIZE;
    while offset <= total_size - HEADER_SIZE
        invariant
            2 * HEADER_SIZE <= total_size,
            HEADER_SIZE <= offset <= total_size,
            total_size <= bytes@.len(),
            total_size <= u32::MAX,
            framebuffer_of(bytes@) == search(bytes@, total_size as int, offset as int),
        decreases total_size - offset,
    {
        let typ: u32 = read_u32(bytes, offset);
        let size: u32 = read_u32(bytes, offset + 4);
        if typ == TAG_END && size == 8 {
            return None;
        }
        if typ == TAG_FRAMEBUFFER {
            if size as usize > total_size - offset || FRAMEBUFFER_TAG_SIZE > total_size - offset {
                return None;
            }
            return Some(
                Framebuffer {
                    phys_addr: read_u64(bytes, offset + 8),
                    pitch: read_u32(bytes, offset + 16) as usize,
                    width: read_u32(bytes, offset + 20) as usize,
                    height: read_u32(bytes, offset + 24) as usize,
                    bpp: bytes[offset + 28] as usize,
                },
            );
        }
        let step: u64 = (size as u64 + 7) / 8 * 8;
        if step == 0 {
            return None;
        }
        if step > (total_size - offset) as u64 {
            return None;
        }
        offset = offset + step as usize;
    }
    None
}

/// Finds the framebuffer and says whether there is one.
pub fn parse_multiboot(bytes: &[u8]) -> (r: Result<Framebuffer, &'static str>)
    ensures
        match framebuffer_of(bytes@) {
            Some(fb) => r == Ok::<Framebuffer, &'static str>(fb),
            None => r is Err,
        },
{
    match find_framebuffer(bytes) {
        Some(fb) => Ok(fb),
        None => Err("no framebuffer found in multiboot info"),
    }
}

} // verus!
