//! A writer on the text screen that wraps before it writes: the column may
//! stand one past the end of a row until the next byte comes.

use vstd::prelude::*;
use vstd::string::*;
use crate::vga::{TextScreen, cell_of, scrolled, vga_put_at, VGA_W, VGA_H, VGA_CELLS, BLANK};

verus! {

/// Black.
pub const COLOR_BLACK: u8 = 0x0;

/// White.
pub const COLOR_WHITE: u8 = 0xF;

/// Light green.
pub const COLOR_LIGHT_GREEN: u8 = 0xA;

/// The line feed.
pub const NEWLINE: u8 = 0x0A;

/// The question mark, shown in place of a character that is not ASCII.
pub const REPLACEMENT: u8 = 0x3F;

/// The mathematical state of the writer.
pub struct VgaState {
    pub row: int,
    pub col: int,
    pub color: u8,
    pub cells: Seq<u16>,
}

/// The digit of value `nibble` in upper-case hexadecimal.
pub open spec fn hex_digit(nibble: u32) -> u8 {
    if nibble < 10 {
        (0x30 + nibble) as u8
    } else {
        (0x41 + nibble - 10) as u8
    }
}

/// The ten bytes that show `value` in hexadecimal: "0x" and eight digits,
/// the highest first.
pub open spec fn hex_bytes(value: u32) -> Seq<u8> {
    seq![
        0x30u8,
        0x78u8,
        hex_digit((value / 0x1000_0000) % 16),
        hex_digit((value / 0x100_0000) % 16),
        hex_digit((value / 0x10_0000) % 16),
        hex_digit((value / 0x1_0000) % 16),
        hex_digit((value / 0x1000) % 16),
        hex_digit((value / 0x100) % 16),
        hex_digit((value / 0x10) % 16),
        hex_digit(value % 16),
    ]
}

impl VgaState {
    pub open spec fn wf(self) -> bool {
        &&& 0 <= self.row < VGA_H
        &&& 0 <= self.col <= VGA_W
        &&& self.cells.len() == VGA_CELLS
    }

    /// The writer at the start of the next row; from the last row the
    /// screen scrolls instead.
    pub open spec fn new_line(self) -> VgaState {
        if self.row + 1 >= VGA_H {
            VgaState {
                col: 0,
                row: VGA_H - 1,
                cells: scrolled(self.cells, self.color),
                ..self
            }
        } else {
            VgaState { col: 0, row: self.row + 1, ..self }
        }
    }

    /// The writer after byte `byte`: a line feed starts a new row; any
    /// other byte goes to the cursor, after a new row has been started if
    /// the cursor stood past the end of one.
    pub open spec fn write_byte(self, byte: u8) -> VgaState {
        if byte == NEWLINE {
            self.new_line()
        } else {
            let at = if self.col >= VGA_W {
                self.new_line()
            } else {
                self
            };
            VgaState {
                col: at.col + 1,
                cells: at.cells.update(at.row * VGA_W + at.col, cell_of(byte, at.color)),
                ..at
            }
        }
    }

    /// The writer after the first `n` of `bytes`.
    pub open spec fn write_all(self, bytes: Seq<u8>, n: int) -> VgaState
        decreases n,
    {
        if n <= 0 {
            self
        } else {
            self.write_all(bytes, n - 1).write_byte(bytes[n - 1])
        }
    }

    /// The writer after the whole screen has been blanked.
    pub open spec fn cleared(self) -> VgaState {
        VgaState {
            row: 0,
            col: 0,
            cells: Seq::new(VGA_CELLS as nat, |i: int| cell_of(BLANK, self.color)),
            ..self
        }
    }
}

/// Writing keeps the writer well formed.
pub proof fn lemma_write_byte_wf(s: VgaState, byte: u8)
    requires
        s.wf(),
    ensures
        s.write_byte(byte).wf(),
{
}

pub struct VgaBuffer {
    row: usize,
    col: usize,
    color: u8,
    screen: TextScreen,
}

impl View for VgaBuffer {
    type V = VgaState;

    closed spec fn view(&self) -> VgaState {
        VgaState {
            row: self.row as int,
            col: self.col as int,
            color: self.color,
            cells: self.screen.cells@,
        }
    }
}

impl VgaBuffer {
    /// A white writer in the top left corner.
    pub fn new() -> (r: Self)
        ensures
            r@.wf(),
            r@.row == 0,
            r@.col == 0,
            r@.color == COLOR_WHITE,
    {
        VgaBuffer { row: 0, col: 0, color: COLOR_WHITE, screen: TextScreen::new() }
    }

    /// Where the next byte goes: row and column.
    pub fn position(&self) -> (r: (usize, usize))
        ensures
            r.0 == self@.row,
            r.1 == self@.col,
    {
        (self.row, self.col)
    }

    /// The screen as the writer has left it.
    pub fn screen(&self) -> (r: &TextScreen)
        ensures
            r.cells@ == self@.cells,
    {
        &self.screen
    }

    /// Blanks the screen and goes to the top left corner.
    pub fn clear(&mut self)
        ensures
            final(self)@ == old(self)@.cleared(),
            final(self)@.wf(),
    {
        let blank: u16 = ((self.color as u16) << 8) | (BLANK as u16);
        let mut i: usize = 0;
        while i < VGA_CELLS
            invariant
                0 <= i <= VGA_CELLS,
                self.color == old(self).color,
                blank == cell_of(BLANK, self.color),
                forall|j: int| 0 <= j < i ==> self.screen.cells[j] == blank,
            decreases VGA_CELLS - i,
        {
            self.screen.cells[i] = blank;
            i = i + 1;
        }
        self.row = 0;
        self.col = 0;
        assert(self@.cells =~= old(self)@.cleared().cells);
    }

    fn new_line(&mut self)
        requires
            old(self)@.wf(),
        ensures
            final(self)@ == old(self)@.new_line(),
            final(self)@.wf(),
    {
        self.col = 0;
        self.row = self.row + 1;
        if self.row >= VGA_H {
            self.screen.scroll(self.color);
            self.row = VGA_H - 1;
        }
    }

    /// Writes one byte.
    pub fn write_byte(&mut self, byte: u8)
        requires
            old(self)@.wf(),
        ensures
            final(self)@ == old(self)@.write_byte(byte),
            final(self)@.wf(),
    {
        if byte == NEWLINE {
            self.new_line();
        } else {
            if self.col >= VGA_W {
                self.new_line();
            }
            vga_put_at(&mut self.screen, byte, self.color, self.col, self.row);
            self.col = self.col + 1;
        }
    }

    /// Writes the bytes of `s` one after the other.
    pub fn write_string(&mut self, s: &str)
        requires
            old(self)@.wf(),
        ensures
            final(self)@ == old(self)@.write_all(s.spec_bytes(), s.spec_bytes().len() as int),
            final(self)@.wf(),
    {
        let bytes = s.as_bytes();
        let mut i: usize = 0;
        while i < bytes.len()
            invariant
                0 <= i <= bytes.len(),
                bytes@ == s.spec_bytes(),
                self@ == old(self)@.write_all(bytes@, i as int),
                self@.wf(),
            decreases bytes.len() - i,
        {
            self.write_byte(bytes[i]);
            i = i + 1;
        }
    }

    /// Writes `value` as "0x" and eight upper-case hexadecimal digits.
    pub fn write_hex(&mut self, value: u32)
        requires
            old(self)@.wf(),
        ensures
            final(self)@ == old(self)@.write_all(hex_bytes(value), 10),
            final(self)@.wf(),
    {
        proof {
            reveal_with_fuel(VgaState::write_all, 11);
        }
        self.write_byte(0x30);
        self.write_byte(0x78);
        self.write_byte(hex_char(value / 0x1000_0000 % 16));
        self.write_byte(hex_char(value / 0x100_0000 % 16));
        self.write_byte(hex_char(value / 0x10_0000 % 16));
        self.write_byte(hex_char(value / 0x1_0000 % 16));
        self.write_byte(hex_char(value / 0x1000 % 16));
        self.write_byte(hex_char(value / 0x100 % 16));
        self.write_byte(hex_char(value / 0x10 % 16));
        self.write_byte(hex_char(value % 16));
    }

    /// Writes character `c` if it is ASCII, and a question mark in its
    /// place if it is not.
    pub fn write_char_public(&mut self, c: char)
        requires
            old(self)@.wf(),
        ensures
            final(self)@.wf(),
            final(self)@ == old(self)@.write_byte(
                if (c as u32) < 128 {
                    c as u8
                } else {
                    REPLACEMENT
                },
            ),
    {
        let code: u32 = c as u32;
        if code < 128 {
            self.write_byte(code as u8);
        } else {
            self.write_byte(REPLACEMENT);
        }
    }
}

/// The digit of value `nibble` in upper-case hexadecimal.
pub fn hex_char(nibble: u32) -> (r: u8)
    requires
        nibble < 16,
    ensures
        r == hex_digit(nibble),
{
    if nibble < 10 {
        (0x30 + nibble) as u8
    } else {
        (0x41 + nibble - 10) as u8
    }
}

/// Writes text that has been formatted already. Writing to the screen
/// cannot fail.
pub fn write_vga_fmt(vga: &mut VgaBuffer, text: &str) -> (r: Result<(), ()>)
    requires
        old(vga)@.wf(),
    ensures
        r is Ok,
        final(vga)@.wf(),
        final(vga)@ == old(vga)@.write_all(text.spec_bytes(), text.spec_bytes().len() as int),
{
    vga.write_string(text);
    Ok(())
}

/// Blanks the screen.
pub fn init(vga: &mut VgaBuffer)
    ensures
        final(vga)@ == old(vga)@.cleared(),
        final(vga)@.wf(),
{
    vga.clear();
}

} // verus!
