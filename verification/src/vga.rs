//! The text screen of the VGA adapter: 25 rows of 80 cells, each a
//! character and a colour, and the hardware cursor.

use vstd::prelude::*;
use crate::pic::PortWrite;

verus! {

/// Cells in a row.
pub const VGA_W: usize = 80;

/// Rows on the screen.
pub const VGA_H: usize = 25;

/// Cells in a row, as the cursor position counts them.
pub const SCREEN_WIDTH: u16 = 80;

/// Cells on the screen.
pub const VGA_CELLS: usize = 2000;

/// Index port of the display controller.
pub const CRTC_INDEX: u16 = 0x3D4;

/// Data port of the display controller.
pub const CRTC_DATA: u16 = 0x3D5;

/// The blank character.
pub const BLANK: u8 = 0x20;

/// The word that shows character `ch` in colour `color`.
pub open spec fn cell_of(ch: u8, color: u8) -> u16 {
    ((color as u16) << 8u16) | (ch as u16)
}

/// Character and colour come back out of a cell.
pub proof fn lemma_cell(ch: u8, color: u8)
    by (bit_vector)
    ensures
        ((((color as u16) << 8u16) | (ch as u16)) & 0xFFu16) as u8 == ch,
        ((((color as u16) << 8u16) | (ch as u16)) >> 8u16) as u8 == color,
{
}

/// The cells after the rows have moved up by one and the last row has
/// been blanked in `color`.
pub open spec fn scrolled(cells: Seq<u16>, color: u8) -> Seq<u16> {
    Seq::new(
        VGA_CELLS as nat,
        |i: int|
            if i < VGA_CELLS - VGA_W {
                cells[i + VGA_W]
            } else {
                cell_of(BLANK, color)
            },
    )
}

/// The cells with row `row` blanked in `color`.
pub open spec fn row_cleared(cells: Seq<u16>, row: int, color: u8) -> Seq<u16> {
    Seq::new(
        VGA_CELLS as nat,
        |i: int|
            if row * VGA_W <= i < row * VGA_W + VGA_W {
                cell_of(BLANK, color)
            } else {
                cells[i]
            },
    )
}

/// The cells of the screen, row by row.
pub struct TextScreen {
    pub cells: [u16; 2000],
}

impl TextScreen {
    /// A screen of zeroed cells.
    pub fn new() -> (r: Self)
        ensures
            forall|i: int| 0 <= i < VGA_CELLS ==> r.cells[i] == 0,
    {
        TextScreen { cells: [0u16; 2000] }
    }

    /// The character shown at column `x` of row `y`.
    pub fn char_at(&self, x: usize, y: usize) -> (r: u8)
        requires
            x < VGA_W,
            y < VGA_H,
        ensures
            r == (self.cells[y * VGA_W + x] & 0xFF) as u8,
    {
        (self.cells[y * VGA_W + x] & 0xFF) as u8
    }

    /// The colour shown at column `x` of row `y`.
    pub fn color_at(&self, x: usize, y: usize) -> (r: u8)
        requires
            x < VGA_W,
            y < VGA_H,
        ensures
            r == (self.cells[y * VGA_W + x] >> 8) as u8,
    {
        (self.cells[y * VGA_W + x] >> 8) as u8
    }

    /// Moves every row up by one and blanks the last row in `color`.
    pub fn scroll(&mut self, color: u8)
        ensures
            final(self).cells@ == scrolled(old(self).cells@, color),
    {
        let mut i: usize = 0;
        while i < VGA_CELLS - VGA_W
            invariant
                0 <= i <= VGA_CELLS - VGA_W,
                forall|j: int| 0 <= j < i ==> self.cells[j] == old(self).cells[j + VGA_W],
                forall|j: int| i <= j < VGA_CELLS ==> self.cells[j] == old(self).cells[j],
            decreases VGA_CELLS - VGA_W - i,
        {
            self.cells[i] = self.cells[i + VGA_W];
            i = i + 1;
        }
        while i < VGA_CELLS
            invariant
                VGA_CELLS - VGA_W <= i <= VGA_CELLS,
                forall|j: int|
                    0 <= j < VGA_CELLS - VGA_W ==> self.cells[j] == old(self).cells[j + VGA_W],
                forall|j: int| VGA_CELLS - VGA_W <= j < i ==> self.cells[j] == cell_of(BLANK, color),
            decreases VGA_CELLS - i,
        {
            self.cells[i] = ((color as u16) << 8) | (BLANK as u16);
            i = i + 1;
        }
        assert(self.cells@ =~= scrolled(old(self).cells@, color));
    }
}

/// Puts character `ch` in colour `color` at column `x` of row `y`.
pub fn vga_put_at(screen: &mut TextScreen, ch: u8, color: u8, x: usize, y: usize)
    requires
        x < VGA_W,
        y < VGA_H,
    ensures
        final(screen).cells@ == old(screen).cells@.update(y * VGA_W + x, cell_of(ch, color)),
{
    let idx: usize = y * VGA_W + x;
    screen.cells[idx] = ((color as u16) << 8) | (ch as u16);
}

/// Blanks row `row` in `color`.
pub fn clear_row(screen: &mut TextScreen, row: usize, color: u8)
    requires
        row < VGA_H,
    ensures
        final(screen).cells@ == row_cleared(old(screen).cells@, row as int, color),
{
    let mut col: usize = 0;
    while col < VGA_W
        invariant
            0 <= col <= VGA_W,
            row < VGA_H,
            forall|j: int|
                0 <= j < VGA_CELLS ==> screen.cells[j] == (if row * VGA_W <= j < row * VGA_W + col {
                    cell_of(BLANK, color)
                } else {
                    old(screen).cells[j]
                }),
        decreases VGA_W - col,
    {
        vga_put_at(screen, BLANK, color, col, row);
        col = col + 1;
    }
    assert(screen.cells@ =~= row_cleared(old(screen).cells@, row as int, color));
}

/// The writes that shape the cursor: its first and last scan line, with
/// the upper bits of both registers kept as they were read.
pub open spec fn cursor_shape_writes(start: u8, end: u8, prev_start: u8, prev_end: u8) -> Seq<
    PortWrite,
> {
    seq![
        PortWrite { port: CRTC_INDEX, value: 0x0A },
        PortWrite { port: CRTC_DATA, value: (prev_start & 0xC0) | (start & 0x1F) },
        PortWrite { port: CRTC_INDEX, value: 0x0B },
        PortWrite { port: CRTC_DATA, value: (prev_end & 0xE0) | (end & 0x1F) },
    ]
}

/// The writes that place the cursor at cell `pos`: low byte, then high
/// byte.
pub open spec fn cursor_pos_writes(pos: u16) -> Seq<PortWrite> {
    seq![
        PortWrite { port: CRTC_INDEX, value: 0x0F },
        PortWrite { port: CRTC_DATA, value: (pos & 0x00FF) as u8 },
        PortWrite { port: CRTC_INDEX, value: 0x0E },
        PortWrite { port: CRTC_DATA, value: (pos >> 8) as u8 },
    ]
}

/// The writes that make the cursor visible from scan line `start` to
/// `end`; `prev_start` and `prev_end` are what the two registers held.
pub fn enable_cursor(start: u8, end: u8, prev_start: u8, prev_end: u8) -> (r: Vec<PortWrite>)
    ensures
        r@ == cursor_shape_writes(start, end, prev_start, prev_end),
{
    let mut out: Vec<PortWrite> = Vec::new();
    out.push(PortWrite { port: CRTC_INDEX, value: 0x0A });
    out.push(PortWrite { port: CRTC_DATA, value: (prev_start & 0xC0) | (start & 0x1F) });
    out.push(PortWrite { port: CRTC_INDEX, value: 0x0B });
    out.push(PortWrite { port: CRTC_DATA, value: (prev_end & 0xE0) | (end & 0x1F) });
    assert(out@ =~= cursor_shape_writes(start, end, prev_start, prev_end));
    out
}

/// The writes that place the cursor at cell `pos`, counted row by row.
pub fn set_cursor_pos(pos: u16) -> (r: Vec<PortWrite>)
    ensures
        r@ == cursor_pos_writes(pos),
{
    let mut out: Vec<PortWrite> = Vec::new();
    out.push(PortWrite { port: CRTC_INDEX, value: 0x0F });
    out.push(PortWrite { port: CRTC_DATA, value: (pos & 0x00FF) as u8 });
    out.push(PortWrite { port: CRTC_INDEX, value: 0x0E });
    out.push(PortWrite { port: CRTC_DATA, value: (pos >> 8) as u8 });
    assert(out@ =~= cursor_pos_writes(pos));
    out
}

} // verus!
