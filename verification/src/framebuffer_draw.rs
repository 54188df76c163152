//! How a colour is laid down in a framebuffer's memory: where the bytes of
//! a pixel lie, and which bytes stand for a colour at 32, 24 and 16 bits
//! to the pixel.

use vstd::prelude::*;
use crate::multiboot_parser::Framebuffer;

verus! {

/// The red, green and blue of `color`, five, six and five bits of each,
/// packed into 16 bits.
pub open spec fn rgb565_of(color: u32) -> u16 {
    ((((color >> 19u32) & 0x1Fu32) << 11u32) | (((color >> 10u32) & 0x3Fu32) << 5u32) | ((color
        >> 3u32) & 0x1Fu32)) as u16
}

/// The bytes that stand for `color` in memory, in the order of their
/// addresses: four bytes, lowest first, at 32 bits to the pixel; blue,
/// green, red at 24; the packed colour, low byte first, at 16. No bytes
/// at any other depth.
pub open spec fn encoded(bpp: usize, color: u32) -> Seq<u8> {
    if bpp == 32 {
        seq![
            (color & 0xFFu32) as u8,
            ((color >> 8u32) & 0xFFu32) as u8,
            ((color >> 16u32) & 0xFFu32) as u8,
            ((color >> 24u32) & 0xFFu32) as u8,
        ]
    } else if bpp == 24 {
        seq![
            (color & 0xFFu32) as u8,
            ((color >> 8u32) & 0xFFu32) as u8,
            ((color >> 16u32) & 0xFFu32) as u8,
        ]
    } else if bpp == 16 {
        seq![(rgb565_of(color) & 0xFFu16) as u8, (rgb565_of(color) >> 8u16) as u8]
    } else {
        Seq::empty()
    }
}

/// The colour of the test picture at `(x, y)` on a screen of the given
/// size: red grows and blue falls from left to right, green grows from
/// top to bottom up to half its range.
pub open spec fn gradient_of(width: int, height: int, x: int, y: int) -> int {
    let t = if width > 1 {
        x * 255 / (width - 1)
    } else {
        0
    };
    0xFF00_0000 + t * 0x1_0000 + (y * 128 / (height - 1)) * 0x100 + (255 - t)
}

/// Red, green and blue of `color` packed into 16 bits.
pub fn rgb565(color: u32) -> (r: u16)
    ensures
        r == rgb565_of(color),
{
    let r8: u16 = ((color >> 16) & 0xFF) as u16;
    let g8: u16 = ((color >> 8) & 0xFF) as u16;
    let b8: u16 = (color & 0xFF) as u16;
    let r5: u16 = (r8 >> 3) & 0x1F;
    let g6: u16 = (g8 >> 2) & 0x3F;
    let b5: u16 = (b8 >> 3) & 0x1F;
    assert((((((((color >> 16u32) & 0xFFu32) as u16) >> 3u16) & 0x1Fu16) << 11u16) | ((((((color
        >> 8u32) & 0xFFu32) as u16) >> 2u16) & 0x3Fu16) << 5u16) | ((((color & 0xFFu32) as u16)
        >> 3u16) & 0x1Fu16)) == ((((color >> 19u32) & 0x1Fu32) << 11u32) | (((color >> 10u32)
        & 0x3Fu32) << 5u32) | ((color >> 3u32) & 0x1Fu32)) as u16) by (bit_vector);
    (r5 << 11) | (g6 << 5) | b5
}

/// The bytes that stand for `color` in memory at `bpp` bits to the pixel.
pub fn pixel_bytes(bpp: usize, color: u32) -> (r: Vec<u8>)
    ensures
        r@ == encoded(bpp, color),
{
    let mut out: Vec<u8> = Vec::new();
    if bpp == 32 {
        out.push((color & 0xFF) as u8);
        out.push(((color >> 8) & 0xFF) as u8);
        out.push(((color >> 16) & 0xFF) as u8);
        out.push(((color >> 24) & 0xFF) as u8);
    } else if bpp == 24 {
        out.push((color & 0xFF) as u8);
        out.push(((color >> 8) & 0xFF) as u8);
        out.push(((color >> 16) & 0xFF) as u8);
    } else if bpp == 16 {
        let packed: u16 = rgb565(color);
        out.push((packed & 0xFF) as u8);
        out.push((packed >> 8) as u8);
    }
    assert(out@ =~= encoded(bpp, color));
    out
}

impl Framebuffer {
    /// Whether `(x, y)` is a pixel of the screen.
    pub open spec fn on(self, x: usize, y: usize) -> bool {
        x < self.width && y < self.height
    }

    /// Where the bytes of pixel `(x, y)` begin, counted from the start of
    /// the framebuffer.
    pub open spec fn offset_of(self, x: usize, y: usize) -> int {
        y * self.pitch + x * (self.bpp / 8)
    }

    /// Where the bytes of pixel `(x, y)` begin; nowhere for a point off
    /// the screen, or where the place cannot be told in a `usize`.
    pub fn pixel_offset(&self, x: usize, y: usize) -> (r: Option<usize>)
        ensures
            r == (if self.on(x, y) && self.offset_of(x, y) <= usize::MAX {
                Some(self.offset_of(x, y) as usize)
            } else {
                None
            }),
    {
        if x >= self.width || y >= self.height {
            return None;
        }
        let row = match y.checked_mul(self.pitch) {
            Some(v) => v,
            None => {
                assert(x * (self.bpp / 8) >= 0) by (nonlinear_arith)
                    requires
                        x >= 0,
                        self.bpp / 8 >= 0,
                ;
                return None;
            },
        };
        let col = match x.checked_mul(self.bpp / 8) {
            Some(v) => v,
            None => {
                return None;
            },
        };
        row.checked_add(col)
    }

    /// The part of the rectangle with corner `(x, y)` and size `w` by `h`
    /// that lies on the screen: the corner beyond its last pixel, or
    /// nothing where no pixel of it is on the screen.
    pub fn clip(&self, x: usize, y: usize, w: usize, h: usize) -> (r: Option<(usize, usize)>)
        ensures
            match r {
                Some((x1, y1)) => x < x1 <= self.width && y < y1 <= self.height && x1 == (if x + w
                    < self.width {
                    x + w
                } else {
                    self.width as int
                }) && y1 == (if y + h < self.height {
                    y + h
                } else {
                    self.height as int
                }),
                None => x + w <= x || y + h <= y || x >= self.width || y >= self.height,
            },
    {
        let x1: usize = match x.checked_add(w) {
            Some(v) => if v < self.width {
                v
            } else {
                self.width
            },
            None => self.width,
        };
        let y1: usize = match y.checked_add(h) {
            Some(v) => if v < self.height {
                v
            } else {
                self.height
            },
            None => self.height,
        };
        if x >= x1 || y >= y1 {
            None
        } else {
            Some((x1, y1))
        }
    }

    /// The colour of the test picture at pixel `(x, y)`.
    pub fn gradient_color(&self, x: usize, y: usize) -> (r: u32)
        requires
            self.on(x, y),
            self.height > 1,
        ensures
            r == gradient_of(self.width as int, self.height as int, x as int, y as int),
    {
        let t: u32 = if self.width > 1 {
            assert(x * 255 / (self.width - 1) <= 255) by (nonlinear_arith)
                requires
                    0 <= x <= self.width - 1,
                    self.width > 1,
            ;
            ((x as u128 * 255) / (self.width as u128 - 1)) as u32
        } else {
            0
        };
        assert(y * 128 / (self.height - 1) <= 128) by (nonlinear_arith)
            requires
                0 <= y <= self.height - 1,
                self.height > 1,
        ;
        let g: u32 = ((y as u128 * 128) / (self.height as u128 - 1)) as u32;
        let b: u32 = 255 - t;
        assert((0xFFu32 << 24u32) | (t << 16u32) | (g << 8u32) | b == 0xFF00_0000u32 + t * 0x1_0000u32
            + g * 0x100u32 + b) by (bit_vector)
            requires
                t <= 255,
                g <= 128,
                b <= 255,
        ;
        (0xFF << 24) | (t << 16) | (g << 8) | b
    }
}

} // verus!
