//! A console on the text screen: a cursor that moves cell by cell, wraps
//! at the end of a row and scrolls at the end of the screen.

use vstd::prelude::*;
use vstd::string::*;
use crate::pic::PortWrite;
use crate::vga::{
    TextScreen,
    cell_of,
    scrolled,
    row_cleared,
    cursor_pos_writes,
    cursor_shape_writes,
    vga_put_at,
    clear_row,
    set_cursor_pos,
    enable_cursor,
    VGA_W,
    VGA_H,
    VGA_CELLS,
    BLANK,
};

verus! {

/// The line feed.
pub const NEWLINE: u8 = 0x0A;

/// The mathematical state of the console.
pub struct ConsoleState {
    pub color: u8,
    pub cur_x: int,
    pub cur_y: int,
    pub cells: Seq<u16>,
    /// Port writes that are still to be sent, oldest first.
    pub writes: Seq<PortWrite>,
}

impl ConsoleState {
    pub open spec fn wf(self) -> bool {
        &&& 0 <= self.cur_x < VGA_W
        &&& 0 <= self.cur_y < VGA_H
        &&& self.cells.len() == VGA_CELLS
    }

    /// The console after the hardware cursor has been told where the
    /// cursor is.
    pub open spec fn synced(self) -> ConsoleState {
        ConsoleState {
            writes: self.writes + cursor_pos_writes((self.cur_y * 80 + self.cur_x) as u16),
            ..self
        }
    }

    /// The console after the cursor has gone to the start of the next
    /// row; on the last row the screen scrolls instead.
    pub open spec fn next_row(self) -> ConsoleState {
        if self.cur_y + 1 < VGA_H {
            ConsoleState { cur_x: 0, cur_y: self.cur_y + 1, ..self }
        } else {
            ConsoleState { cur_x: 0, cells: scrolled(self.cells, self.color), ..self }
        }
    }

    pub open spec fn newline(self) -> ConsoleState {
        self.next_row().synced()
    }

    /// The console after the cell before the cursor has been blanked and
    /// the cursor moved onto it; at the start of a row nothing moves.
    pub open spec fn backspace(self) -> ConsoleState {
        if self.cur_x > 0 {
            (ConsoleState {
                cur_x: self.cur_x - 1,
                cells: self.cells.update(
                    self.cur_y * VGA_W + self.cur_x - 1,
                    cell_of(BLANK, self.color),
                ),
                ..self
            }).synced()
        } else {
            self.synced()
        }
    }

    /// The console after byte `ch` has been written at the cursor.
    pub open spec fn putc(self, ch: u8) -> ConsoleState {
        if ch == NEWLINE {
            self.newline()
        } else {
            let written = ConsoleState {
                cells: self.cells.update(self.cur_y * VGA_W + self.cur_x, cell_of(ch, self.color)),
                ..self
            };
            if self.cur_x + 1 >= VGA_W {
                written.next_row().synced()
            } else {
                (ConsoleState { cur_x: self.cur_x + 1, ..written }).synced()
            }
        }
    }

    /// The console after the first `n` of `bytes` have been written.
    pub open spec fn put_all(self, bytes: Seq<u8>, n: int) -> ConsoleState
        decreases n,
    {
        if n <= 0 {
            self
        } else {
            self.put_all(bytes, n - 1).putc(bytes[n - 1])
        }
    }

    /// The console after the whole screen has been blanked.
    pub open spec fn cleared(self) -> ConsoleState {
        ConsoleState {
            cur_x: 0,
            cur_y: 0,
            cells: Seq::new(VGA_CELLS as nat, |i: int| cell_of(BLANK, self.color)),
            ..self
        }
    }
}

/// Writing keeps the console well formed.
pub proof fn lemma_putc_wf(s: ConsoleState, ch: u8)
    requires
        s.wf(),
    ensures
        s.putc(ch).wf(),
{
}

pub proof fn lemma_put_all_wf(s: ConsoleState, bytes: Seq<u8>, n: int)
    requires
        s.wf(),
        0 <= n <= bytes.len(),
    ensures
        s.put_all(bytes, n).wf(),
    decreases n,
{
    if n > 0 {
        lemma_put_all_wf(s, bytes, n - 1);
        lemma_putc_wf(s.put_all(bytes, n - 1), bytes[n - 1]);
    }
}

pub struct Console {
    color: u8,
    cur_x: usize,
    cur_y: usize,
    screen: TextScreen,
    port_writes: Vec<PortWrite>,
}

impl View for Console {
    type V = ConsoleState;

    closed spec fn view(&self) -> ConsoleState {
        ConsoleState {
            color: self.color,
            cur_x: self.cur_x as int,
            cur_y: self.cur_y as int,
            cells: self.screen.cells@,
            writes: self.port_writes@,
        }
    }
}

impl Console {
    /// A console in colour `color` with the cursor in the top left
    /// corner.
    pub fn new(color: u8) -> (r: Self)
        ensures
            r@.wf(),
            r@.color == color,
            r@.cur_x == 0,
            r@.cur_y == 0,
            r@.writes == Seq::<PortWrite>::empty(),
    {
        Console { color, cur_x: 0, cur_y: 0, screen: TextScreen::new(), port_writes: Vec::new() }
    }

    pub fn color(&self) -> (r: u8)
        ensures
            r == self@.color,
    {
        self.color
    }

    pub fn set_color(&mut self, color: u8)
        ensures
            final(self)@ == (ConsoleState { color, ..old(self)@ }),
    {
        self.color = color;
    }

    /// Where the cursor is: column and row.
    pub fn cursor(&self) -> (r: (usize, usize))
        ensures
            r.0 == self@.cur_x,
            r.1 == self@.cur_y,
    {
        (self.cur_x, self.cur_y)
    }

    /// The screen as the console has left it.
    pub fn screen(&self) -> (r: &TextScreen)
        ensures
            r.cells@ == self@.cells,
    {
        &self.screen
    }

    /// Hands over the port writes that are still to be sent, oldest
    /// first, and forgets them.
    pub fn take_port_writes(&mut self) -> (r: Vec<PortWrite>)
        ensures
            r@ == old(self)@.writes,
            final(self)@ == (ConsoleState { writes: Seq::<PortWrite>::empty(), ..old(self)@ }),
    {
        let mut out: Vec<PortWrite> = Vec::new();
        std::mem::swap(&mut self.port_writes, &mut out);
        out
    }

    fn queue(&mut self, writes: Vec<PortWrite>)
        ensures
            final(self)@ == (ConsoleState { writes: old(self)@.writes + writes@, ..old(self)@ }),
    {
        let mut i: usize = 0;
        while i < writes.len()
            invariant
                0 <= i <= writes.len(),
                self@ == (ConsoleState {
                    writes: old(self)@.writes + writes@.take(i as int),
                    ..old(self)@
                }),
            decreases writes.len() - i,
        {
            self.port_writes.push(writes[i]);
            proof {
                assert(old(self)@.writes + writes@.take(i + 1) =~= (old(self)@.writes
                    + writes@.take(i as int)).push(writes@[i as int]));
            }
            i = i + 1;
        }
        proof {
            assert(writes@.take(writes@.len() as int) =~= writes@);
        }
    }

    /// Makes the cursor a visible block; `prev_start` and `prev_end` are
    /// what the two shape registers of the display controller held.
    pub fn enable_cursor(&mut self, prev_start: u8, prev_end: u8)
        ensures
            final(self)@ == (ConsoleState {
                writes: old(self)@.writes + cursor_shape_writes(13, 15, prev_start, prev_end),
                ..old(self)@
            }),
    {
        self.queue(enable_cursor(13, 15, prev_start, prev_end));
    }

    /// Tells the hardware cursor where the cursor is.
    pub fn sync_cursor(&mut self)
        requires
            old(self)@.wf(),
        ensures
            final(self)@ == old(self)@.synced(),
    {
        let pos: u16 = (self.cur_y as u16) * 80 + (self.cur_x as u16);
        self.queue(set_cursor_pos(pos));
    }

    /// Blanks the screen and puts the cursor in the top left corner.
    pub fn clear(&mut self)
        ensures
            final(self)@ == old(self)@.cleared(),
            final(self)@.wf(),
    {
        let mut row: usize = 0;
        while row < VGA_H
            invariant
                0 <= row <= VGA_H,
                self.color == old(self).color,
                self.port_writes == old(self).port_writes,
                forall|j: int| 0 <= j < row * VGA_W ==> self.screen.cells[j] == cell_of(BLANK, self.color),
            decreases VGA_H - row,
        {
            clear_row(&mut self.screen, row, self.color);
            row = row + 1;
        }
        self.cur_x = 0;
        self.cur_y = 0;
        assert(self@.cells =~= old(self)@.cleared().cells);
    }

    fn next_row(&mut self)
        requires
            old(self)@.cur_y < VGA_H,
        ensures
            final(self)@ == old(self)@.next_row(),
    {
        self.cur_x = 0;
        if self.cur_y + 1 < VGA_H {
            self.cur_y = self.cur_y + 1;
        } else {
            self.screen.scroll(self.color);
        }
    }

    /// Goes to the start of the next row.
    pub fn newline(&mut self)
        requires
            old(self)@.wf(),
        ensures
            final(self)@ == old(self)@.newline(),
            final(self)@.wf(),
    {
        self.next_row();
        self.sync_cursor();
    }

    /// Rubs out the cell before the cursor.
    pub fn backspace(&mut self)
        requires
            old(self)@.wf(),
        ensures
            final(self)@ == old(self)@.backspace(),
            final(self)@.wf(),
    {
        if self.cur_x > 0 {
            self.cur_x = self.cur_x - 1;
            vga_put_at(&mut self.screen, BLANK, self.color, self.cur_x, self.cur_y);
        }
        self.sync_cursor();
    }

    /// Writes byte `ch` at the cursor and moves on; a line feed starts a
    /// new row instead.
    pub fn putc(&mut self, ch: u8)
        requires
            old(self)@.wf(),
        ensures
            final(self)@ == old(self)@.putc(ch),
            final(self)@.wf(),
    {
        if ch == NEWLINE {
            self.newline();
            return ;
        }
        vga_put_at(&mut self.screen, ch, self.color, self.cur_x, self.cur_y);
        if self.cur_x + 1 >= VGA_W {
            self.next_row();
        } else {
            self.cur_x = self.cur_x + 1;
        }
        self.sync_cursor();
    }

    /// Writes the bytes of `s` one after the other.
    pub fn write_str(&mut self, s: &str)
        requires
            old(self)@.wf(),
        ensures
            final(self)@ == old(self)@.put_all(s.spec_bytes(), s.spec_bytes().len() as int).synced(),
            final(self)@.wf(),
    {
        let bytes = s.as_bytes();
        let mut i: usize = 0;
        while i < bytes.len()
            invariant
                0 <= i <= bytes.len(),
                bytes@ == s.spec_bytes(),
                self@ == old(self)@.put_all(bytes@, i as int),
                self@.wf(),
            decreases bytes.len() - i,
        {
            self.putc(bytes[i]);
            i = i + 1;
        }
        self.sync_cursor();
    }
}

} // verus!
