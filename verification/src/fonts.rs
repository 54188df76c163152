//! A font of 8 by 8 pixels. It knows the letters O and S.

use vstd::prelude::*;
use vstd::string::*;
use crate::graphics::{Graphics, Screen, in_box, passed, lemma_paint_step};

verus! {

/// Width and height of a glyph in pixels.
pub const GLYPH_SIZE: u64 = 8;

/// Distance from one character of a string to the next: a glyph and one
/// pixel.
pub const GLYPH_ADVANCE: u64 = 9;

/// The eight rows of the letter O, the leftmost pixel in the highest bit.
pub open spec fn glyph_o() -> Seq<u8> {
    seq![0x3Cu8, 0x66u8, 0xC3u8, 0xC3u8, 0xC3u8, 0xC3u8, 0x66u8, 0x3Cu8]
}

/// The eight rows of the letter S.
pub open spec fn glyph_s() -> Seq<u8> {
    seq![0x3Cu8, 0x66u8, 0x60u8, 0x3Cu8, 0x06u8, 0x06u8, 0x66u8, 0x3Cu8]
}

/// The glyph of `ch`, if the font has one.
pub open spec fn glyph_of(ch: char) -> Option<Seq<u8>> {
    if ch == 'O' || ch == 'o' {
        Some(glyph_o())
    } else if ch == 'S' || ch == 's' {
        Some(glyph_s())
    } else {
        None
    }
}

/// Whether the glyph row `row` has pixel `col` set.
pub open spec fn glyph_bit(row: u8, col: int) -> bool {
    row & (0x80u8 >> (col as u8)) != 0
}

/// What character `ch` drawn at `(x, y)` puts on pixel `(px, py)`.
pub open spec fn char_paint(ch: char, px: int, py: int, x: int, y: int, color: u32) -> Option<u32> {
    match glyph_of(ch) {
        Some(rows) => if in_box(px, py, x, y, GLYPH_SIZE as int, GLYPH_SIZE as int) && glyph_bit(
            rows[py - y],
            px - x,
        ) {
            Some(color)
        } else {
            None
        },
        None => None,
    }
}

/// What the first `n` characters of `text` drawn from `(x, y)` on put on
/// pixel `(px, py)`: each character stands nine pixels to the right of
/// the one before.
pub open spec fn string_paint(
    text: Seq<char>,
    n: int,
    px: int,
    py: int,
    x: int,
    y: int,
    color: u32,
) -> Option<u32> {
    let i = (px - x) / (GLYPH_ADVANCE as int);
    if x <= px && 0 <= i < n {
        char_paint(text[i], px, py, x + i * GLYPH_ADVANCE, y, color)
    } else {
        None
    }
}

/// The eight rows of the letter O.
pub fn char_o() -> (r: [u8; 8])
    ensures
        r@ == glyph_o(),
{
    let r: [u8; 8] = [0x3C, 0x66, 0xC3, 0xC3, 0xC3, 0xC3, 0x66, 0x3C];
    assert(r@ =~= glyph_o());
    r
}

/// The eight rows of the letter S.
pub fn char_s() -> (r: [u8; 8])
    ensures
        r@ == glyph_s(),
{
    let r: [u8; 8] = [0x3C, 0x66, 0x60, 0x3C, 0x06, 0x06, 0x66, 0x3C];
    assert(r@ =~= glyph_s());
    r
}

/// Draws character `ch` with its top left corner at `(x, y)`. A character
/// that the font does not know leaves the screen as it is.
pub fn draw_char(graphics: &mut Graphics, x: u64, y: u64, ch: char, color: u32)
    requires
        old(graphics)@.wf(),
        x + GLYPH_SIZE <= u64::MAX,
        y + GLYPH_SIZE <= u64::MAX,
    ensures
        final(graphics)@.drawn(
            old(graphics)@,
            |px: int, py: int| char_paint(ch, px, py, x as int, y as int, color),
        ),
{
    let bitmap: [u8; 8] = if ch == 'O' || ch == 'o' {
        char_o()
    } else if ch == 'S' || ch == 's' {
        char_s()
    } else {
        assert(graphics@.drawn(
            old(graphics)@,
            |px: int, py: int| char_paint(ch, px, py, x as int, y as int, color),
        ));
        return ;
    };
    let ghost paint = |px: int, py: int| char_paint(ch, px, py, x as int, y as int, color);
    let mut row: u64 = 0;
    while row < 8
        invariant
            0 <= row <= 8,
            x + GLYPH_SIZE <= u64::MAX,
            y + GLYPH_SIZE <= u64::MAX,
            glyph_of(ch) == Some(bitmap@),
            paint == (|px: int, py: int| char_paint(ch, px, py, x as int, y as int, color)),
            old(graphics)@.wf(),
            graphics@.drawn(
                old(graphics)@,
                |px: int, py: int|
                    if passed(px, py, x as int, y as int, 8, row as int, 0) {
                        paint(px, py)
                    } else {
                        None
                    },
            ),
        decreases 8 - row,
    {
        let byte: u8 = bitmap[row as usize];
        let mut col: u64 = 0;
        while col < 8
            invariant
                0 <= col <= 8,
                row < 8,
                byte == bitmap[row as int],
                x + GLYPH_SIZE <= u64::MAX,
                y + GLYPH_SIZE <= u64::MAX,
                glyph_of(ch) == Some(bitmap@),
                paint == (|px: int, py: int| char_paint(ch, px, py, x as int, y as int, color)),
                old(graphics)@.wf(),
                graphics@.drawn(
                    old(graphics)@,
                    |px: int, py: int|
                        if passed(px, py, x as int, y as int, 8, row as int, col as int) {
                            paint(px, py)
                        } else {
                            None
                        },
                ),
            decreases 8 - col,
        {
            let ghost mid = graphics@;
            if (byte & (0x80u8 >> (col as u8))) != 0 {
                graphics.put_pixel(x + col, y + row, color);
            } else {
                assert(graphics@.drawn(
                    mid,
                    |px: int, py: int|
                        if px == x + col && py == y + row {
                            paint(x + col, y + row)
                        } else {
                            None
                        },
                ));
            }
            proof {
                lemma_paint_step(
                    old(graphics)@,
                    mid,
                    graphics@,
                    paint,
                    |a: int, b: int| passed(a, b, x as int, y as int, 8, row as int, col as int),
                    |a: int, b: int| passed(a, b, x as int, y as int, 8, row as int, col + 1),
                    x + col,
                    y + row,
                );
            }
            col = col + 1;
        }
        row = row + 1;
    }
    proof {
        assert forall|px: int, py: int| old(graphics)@.on(px, py) implies #[trigger] graphics@.at(
            px,
            py,
        ) == (match char_paint(ch, px, py, x as int, y as int, color) {
            Some(c) => c,
            None => old(graphics)@.at(px, py),
        }) by {}
    }
}

/// Draws `text` from `(x, y)` on, nine pixels from character to
/// character.
pub fn draw_string(graphics: &mut Graphics, x: u64, y: u64, text: &str, color: u32)
    requires
        old(graphics)@.wf(),
        x + GLYPH_ADVANCE * text@.len() + GLYPH_SIZE <= u64::MAX,
        y + GLYPH_SIZE <= u64::MAX,
    ensures
        final(graphics)@.drawn(
            old(graphics)@,
            |px: int, py: int|
                string_paint(text@, text@.len() as int, px, py, x as int, y as int, color),
        ),
{
    let n: usize = text.unicode_len();
    let mut current_x: u64 = x;
    let mut i: usize = 0;
    while i < n
        invariant
            0 <= i <= n,
            n == text@.len(),
            current_x == x + GLYPH_ADVANCE * i,
            x + GLYPH_ADVANCE * text@.len() + GLYPH_SIZE <= u64::MAX,
            y + GLYPH_SIZE <= u64::MAX,
            old(graphics)@.wf(),
            graphics@.drawn(
                old(graphics)@,
                |px: int, py: int| string_paint(text@, i as int, px, py, x as int, y as int, color),
            ),
        decreases n - i,
    {
        let ch = text.get_char(i);
        let ghost mid = graphics@;
        draw_char(graphics, current_x, y, ch, color);
        proof {
            assert forall|px: int, py: int| old(graphics)@.on(px, py) implies #[trigger] graphics@.at(
                px,
                py,
            ) == (match string_paint(text@, i + 1, px, py, x as int, y as int, color) {
                Some(c) => c,
                None => old(graphics)@.at(px, py),
            }) by {
                assert(mid.on(px, py));
                assert(mid.at(px, py) == mid.at(px, py));
                let k = (px - x) / 9;
                if x <= px {
                    if char_paint(ch, px, py, current_x as int, y as int, color) is Some {
                        assert(k == i);
                    }
                    if k == i {
                        assert(string_paint(text@, i as int, px, py, x as int, y as int, color)
                            is None);
                    }
                }
            }
        }
        current_x = current_x + GLYPH_ADVANCE;
        i = i + 1;
    }
}

} // verus!
