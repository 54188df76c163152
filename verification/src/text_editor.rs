//! A text editor in a window: up to thirty lines of up to eighty
//! characters, a cursor, and a view that scrolls with it.

use vstd::prelude::*;
use vstd::string::*;
use crate::colors::{dark_theme, ui, WHITE};
use crate::display_list::run;
use crate::graphics::{DrawCommand, Graphics, all_valid, list_paint};
use crate::widgets::{append_commands, text_fits, COORD_LIMIT, SHADOW};

verus! {

/// Lines the editor can hold.
pub const MAX_LINES: usize = 30;

/// Characters a line can hold.
pub const MAX_LINE_LENGTH: usize = 80;

/// Bytes of the whole text as `get_text` returns it.
pub const TEXT_SIZE: usize = 2400;

/// Height of a line of text in pixels.
pub const LINE_HEIGHT: u64 = 16;

/// Height of title bar, margins and status bar together.
pub const CHROME_HEIGHT: u64 = 70;

/// The line feed.
pub const NEWLINE: u8 = 0x0A;

/// The blank.
pub const SPACE: u8 = 0x20;

/// Width of a character cell in pixels.
pub const CHAR_WIDTH: u64 = 9;

/// How the window of an editor looks: where it is, how large, and in
/// which colours.
pub struct EditorLook {
    pub x: u64,
    pub y: u64,
    pub width: u64,
    pub height: u64,
    pub title: &'static str,
    pub visible: bool,
    pub bg_color: u32,
    pub text_color: u32,
    pub cursor_color: u32,
}

impl EditorLook {
    /// Place and size are within the limit, the window is high enough
    /// for its title bar and status bar, and the title fits.
    pub open spec fn wf(self) -> bool {
        &&& self.x <= COORD_LIMIT
        &&& self.y <= COORD_LIMIT
        &&& self.width <= COORD_LIMIT
        &&& CHROME_HEIGHT <= self.height <= COORD_LIMIT
        &&& text_fits(self.title)
    }
}

/// The decimal digits of `num`, which is below ten thousand, highest
/// first, as characters.
pub open spec fn decimal(num: int) -> Seq<u8> {
    if num >= 1000 {
        seq![
            (48 + num / 1000) as u8,
            (48 + num / 100 % 10) as u8,
            (48 + num / 10 % 10) as u8,
            (48 + num % 10) as u8,
        ]
    } else if num >= 100 {
        seq![(48 + num / 100) as u8, (48 + num / 10 % 10) as u8, (48 + num % 10) as u8]
    } else if num >= 10 {
        seq![(48 + num / 10) as u8, (48 + num % 10) as u8]
    } else {
        seq![(48 + num) as u8]
    }
}

/// The steps that draw the characters `chars` from `(x, y)` on, one cell
/// each.
pub open spec fn glyph_commands(chars: Seq<u8>, x: int, y: int, color: u32) -> Seq<DrawCommand> {
    Seq::new(
        chars.len(),
        |i: int|
            DrawCommand::Glyph {
                x: (x + i * CHAR_WIDTH) as u64,
                y: y as u64,
                ch: chars[i] as char,
                color,
            },
    )
}

/// Whether `ch` shows: it is printable and no blank.
pub open spec fn shows(ch: u8) -> bool {
    ch != SPACE && 32 <= ch < 127
}

/// The steps that draw the first `n` characters of `line` from `(x, y)`
/// on: each character that shows in its cell.
pub open spec fn line_commands(line: Seq<u8>, n: int, x: int, y: int, color: u32) -> Seq<DrawCommand>
    decreases n,
{
    if n <= 0 {
        Seq::empty()
    } else if shows(line[n - 1]) {
        line_commands(line, n - 1, x, y, color).push(
            DrawCommand::Glyph {
                x: (x + (n - 1) * CHAR_WIDTH) as u64,
                y: y as u64,
                ch: line[n - 1] as char,
                color,
            },
        )
    } else {
        line_commands(line, n - 1, x, y, color)
    }
}

/// Number of lines of text that are drawn: those that fit the window, at
/// most thirty, and no more than there are from the first line shown.
pub open spec fn rows_drawn(look: EditorLook, text: EditorView) -> int {
    let fit = if text.visible_lines < MAX_LINES {
        text.visible_lines
    } else {
        MAX_LINES as int
    };
    let there = text.lines.len() - text.scroll_offset;
    if there <= 0 {
        0
    } else if there < fit {
        there
    } else {
        fit
    }
}

/// The steps that draw the first `k` rows of text: for each row its line
/// number and its characters.
pub open spec fn text_commands(look: EditorLook, text: EditorView, k: int) -> Seq<DrawCommand>
    decreases k,
{
    if k <= 0 {
        Seq::empty()
    } else {
        let actual = text.scroll_offset + k - 1;
        let y = look.y + 40 + (k - 1) * LINE_HEIGHT;
        text_commands(look, text, k - 1) + glyph_commands(
            decimal(actual + 1),
            look.x + 5,
            y,
            dark_theme::TEXT_DISABLED,
        ) + line_commands(
            text.lines[actual],
            text.lines[actual].len() as int,
            look.x + 10,
            y,
            look.text_color,
        )
    }
}

/// The steps that draw the cursor, none if it lies outside what is
/// shown.
pub open spec fn cursor_commands(look: EditorLook, text: EditorView) -> Seq<DrawCommand> {
    if text.cursor_line < text.scroll_offset || text.cursor_line - text.scroll_offset
        >= text.visible_lines {
        Seq::empty()
    } else {
        seq![
            DrawCommand::FillRect {
                x: (look.x + 10 + text.cursor_col * CHAR_WIDTH) as u64,
                y: (look.y + 40 + (text.cursor_line - text.scroll_offset) * LINE_HEIGHT) as u64,
                width: 2,
                height: LINE_HEIGHT,
                color: look.cursor_color,
            },
        ]
    }
}

/// The characters of the status line: "Ln ", the line of the cursor,
/// ", Col " and its column, both counted from one.
pub open spec fn status_text(text: EditorView) -> Seq<u8> {
    seq![0x4Cu8, 0x6Eu8, 0x20u8] + decimal(text.cursor_line + 1) + seq![
        0x2Cu8,
        0x20u8,
        0x43u8,
        0x6Fu8,
        0x6Cu8,
        0x20u8,
    ] + decimal(text.cursor_col + 1)
}

/// The steps that draw the status bar.
pub open spec fn status_commands(look: EditorLook, text: EditorView) -> Seq<DrawCommand> {
    let status_y = look.y + look.height - 20;
    seq![
        DrawCommand::FillRect {
            x: look.x,
            y: status_y as u64,
            width: look.width,
            height: 20,
            color: dark_theme::SURFACE_VARIANT,
        },
    ] + glyph_commands(status_text(text), look.x + 10, status_y + 6, dark_theme::TEXT_SECONDARY)
}

/// The steps that draw the window of the editor: nothing while it is
/// hidden.
pub open spec fn frame_commands(look: EditorLook) -> Seq<DrawCommand> {
    seq![
        DrawCommand::FillRect {
            x: (look.x + 3) as u64,
            y: (look.y + 3) as u64,
            width: look.width,
            height: look.height,
            color: SHADOW,
        },
        DrawCommand::FillRect {
            x: look.x,
            y: look.y,
            width: look.width,
            height: look.height,
            color: look.bg_color,
        },
        DrawCommand::FillRect {
            x: look.x,
            y: look.y,
            width: look.width,
            height: 30,
            color: ui::TITLEBAR_ACTIVE,
        },
        DrawCommand::Frame {
            x: look.x,
            y: look.y,
            width: look.width,
            height: look.height,
            color: dark_theme::BORDER,
            thickness: 1,
        },
        DrawCommand::Text {
            x: (look.x + 10) as u64,
            y: (look.y + 11) as u64,
            text: look.title,
            color: WHITE,
        },
        DrawCommand::FillRect {
            x: look.x,
            y: (look.y + 30) as u64,
            width: look.width,
            height: (look.height - 30) as u64,
            color: dark_theme::BACKGROUND,
        },
    ]
}

/// The steps that draw the editor: window, text, cursor and status bar;
/// nothing while it is hidden.
pub open spec fn editor_commands(look: EditorLook, text: EditorView) -> Seq<DrawCommand> {
    if !look.visible {
        Seq::empty()
    } else {
        frame_commands(look) + text_commands(look, text, rows_drawn(look, text)) + cursor_commands(
            look,
            text,
        ) + status_commands(look, text)
    }
}

/// The mathematical state of the text and its cursor.
pub struct EditorView {
    /// The lines of the text, top to bottom.
    pub lines: Seq<Seq<u8>>,
    pub cursor_line: int,
    pub cursor_col: int,
    /// The first line that is shown.
    pub scroll_offset: int,
    /// Lines that fit into the window.
    pub visible_lines: int,
}

/// The first `n` lines joined by line feeds.
pub open spec fn joined(lines: Seq<Seq<u8>>, n: int) -> Seq<u8>
    decreases n,
{
    if n <= 0 {
        Seq::empty()
    } else if n == 1 {
        lines[0]
    } else {
        joined(lines, n - 1).push(NEWLINE) + lines[n - 1]
    }
}

/// The text up to character `k` of line `l`: the lines above, each with
/// its line feed, and the start of line `l`.
pub open spec fn text_upto(lines: Seq<Seq<u8>>, l: int, k: int) -> Seq<u8> {
    if l <= 0 {
        lines[0].take(k)
    } else {
        joined(lines, l).push(NEWLINE) + lines[l].take(k)
    }
}

/// The text up to the end of a line is the text of the lines so far, and
/// with a line feed behind it the text up to the start of the next line.
pub proof fn lemma_text_upto(lines: Seq<Seq<u8>>, l: int)
    requires
        0 <= l < lines.len(),
    ensures
        text_upto(lines, l, lines[l].len() as int) == joined(lines, l + 1),
        text_upto(lines, l + 1, 0) == joined(lines, l + 1).push(NEWLINE),
        forall|k: int|
            0 <= k < lines[l].len() ==> #[trigger] text_upto(lines, l, k + 1) == text_upto(
                lines,
                l,
                k,
            ).push(lines[l][k]),
{
    assert(lines[l].take(lines[l].len() as int) =~= lines[l]);
    assert(lines[l + 1].take(0) =~= Seq::<u8>::empty());
    assert(text_upto(lines, l + 1, 0) =~= joined(lines, l + 1).push(NEWLINE));
    if l == 0 {
        assert(text_upto(lines, 0, lines[0].len() as int) =~= joined(lines, 1));
    } else {
        assert(text_upto(lines, l, lines[l].len() as int) =~= joined(lines, l + 1));
    }
    assert forall|k: int| 0 <= k < lines[l].len() implies #[trigger] text_upto(lines, l, k + 1)
        == text_upto(lines, l, k).push(lines[l][k]) by {
        assert(lines[l].take(k + 1) =~= lines[l].take(k).push(lines[l][k]));
        if l == 0 {
        } else {
            assert(text_upto(lines, l, k + 1) =~= text_upto(lines, l, k).push(lines[l][k]));
        }
    }
}

impl EditorView {
    pub open spec fn wf(self) -> bool {
        &&& 1 <= self.lines.len() <= MAX_LINES
        &&& forall|i: int| 0 <= i < self.lines.len() ==> (#[trigger] self.lines[i]).len() <= MAX_LINE_LENGTH
        &&& 0 <= self.cursor_line < self.lines.len()
        &&& 0 <= self.cursor_col <= self.lines[self.cursor_line].len()
        &&& 0 <= self.scroll_offset <= MAX_LINES
        &&& 0 <= self.visible_lines
    }

    /// The line that the cursor is on.
    pub open spec fn current(self) -> Seq<u8> {
        self.lines[self.cursor_line]
    }

    /// The view after the cursor has come to `line`: it moves down by one
    /// line when the cursor has left it at the bottom.
    pub open spec fn scrolled_down_to(self, line: int) -> int {
        if line >= self.scroll_offset + self.visible_lines {
            self.scroll_offset + 1
        } else {
            self.scroll_offset
        }
    }

    /// The state after a printable character has been typed: it goes in
    /// at the cursor, what follows moves right, and what no longer fits
    /// the line is lost. With the cursor at the end of a full line
    /// nothing happens.
    pub open spec fn typed(self, ch: u8) -> EditorView {
        if self.cursor_col < MAX_LINE_LENGTH {
            EditorView {
                lines: self.lines.update(
                    self.cursor_line,
                    self.current().insert(self.cursor_col, ch).take(
                        if self.current().len() < MAX_LINE_LENGTH {
                            self.current().len() as int + 1
                        } else {
                            MAX_LINE_LENGTH as int
                        },
                    ),
                ),
                cursor_col: self.cursor_col + 1,
                ..self
            }
        } else {
            self
        }
    }

    /// The state after Enter: the line is split at the cursor, and the
    /// cursor goes to the start of the new line. A full editor takes no
    /// more lines.
    pub open spec fn newline(self) -> EditorView {
        if self.lines.len() >= MAX_LINES {
            self
        } else {
            EditorView {
                lines: self.lines.update(
                    self.cursor_line,
                    self.current().take(self.cursor_col),
                ).insert(self.cursor_line + 1, self.current().skip(self.cursor_col)),
                cursor_line: self.cursor_line + 1,
                cursor_col: 0,
                scroll_offset: self.scrolled_down_to(self.cursor_line + 1),
                ..self
            }
        }
    }

    /// The state after Backspace: the character before the cursor goes;
    /// at the start of a line the line is joined to the one above, as far
    /// as it fits.
    pub open spec fn backspace(self) -> EditorView {
        if self.cursor_col > 0 {
            EditorView {
                lines: self.lines.update(
                    self.cursor_line,
                    self.current().remove(self.cursor_col - 1),
                ),
                cursor_col: self.cursor_col - 1,
                ..self
            }
        } else if self.cursor_line > 0 {
            let above = self.lines[self.cursor_line - 1];
            let both = above + self.current();
            EditorView {
                lines: self.lines.update(
                    self.cursor_line - 1,
                    if both.len() > MAX_LINE_LENGTH {
                        both.take(MAX_LINE_LENGTH as int)
                    } else {
                        both
                    },
                ).remove(self.cursor_line),
                cursor_line: self.cursor_line - 1,
                cursor_col: above.len() as int,
                ..self
            }
        } else {
            self
        }
    }

    pub open spec fn up(self) -> EditorView {
        if self.cursor_line > 0 {
            let above = self.lines[self.cursor_line - 1];
            EditorView {
                cursor_line: self.cursor_line - 1,
                cursor_col: if self.cursor_col < above.len() {
                    self.cursor_col
                } else {
                    above.len() as int
                },
                scroll_offset: if self.cursor_line - 1 < self.scroll_offset {
                    self.cursor_line - 1
                } else {
                    self.scroll_offset
                },
                ..self
            }
        } else {
            self
        }
    }

    pub open spec fn down(self) -> EditorView {
        if self.cursor_line + 1 < self.lines.len() {
            let below = self.lines[self.cursor_line + 1];
            EditorView {
                cursor_line: self.cursor_line + 1,
                cursor_col: if self.cursor_col < below.len() {
                    self.cursor_col
                } else {
                    below.len() as int
                },
                scroll_offset: self.scrolled_down_to(self.cursor_line + 1),
                ..self
            }
        } else {
            self
        }
    }

    pub open spec fn left(self) -> EditorView {
        if self.cursor_col > 0 {
            EditorView { cursor_col: self.cursor_col - 1, ..self }
        } else if self.cursor_line > 0 {
            EditorView {
                cursor_line: self.cursor_line - 1,
                cursor_col: self.lines[self.cursor_line - 1].len() as int,
                ..self
            }
        } else {
            self
        }
    }

    pub open spec fn right(self) -> EditorView {
        if self.cursor_col < self.current().len() {
            EditorView { cursor_col: self.cursor_col + 1, ..self }
        } else if self.cursor_line + 1 < self.lines.len() {
            EditorView { cursor_line: self.cursor_line + 1, cursor_col: 0, ..self }
        } else {
            self
        }
    }

    /// The state after byte `ch` has come from the keyboard: line feed
    /// and carriage return are Enter, 8 and 127 are Backspace, a tab is
    /// four blanks, a printable character is typed, and anything else is
    /// ignored.
    pub open spec fn input(self, ch: u8) -> EditorView {
        if ch == 0x0A || ch == 0x0D {
            self.newline()
        } else if ch == 8 || ch == 127 {
            self.backspace()
        } else if ch == 9 {
            self.typed(SPACE).typed(SPACE).typed(SPACE).typed(SPACE)
        } else if 32 <= ch <= 126 {
            self.typed(ch)
        } else {
            self
        }
    }

    /// The whole text: the lines joined by line feeds, cut or filled up
    /// with zeros to `TEXT_SIZE` bytes.
    pub open spec fn text(self) -> Seq<u8> {
        let all = joined(self.lines, self.lines.len() as int);
        Seq::new(
            TEXT_SIZE as nat,
            |i: int|
                if i < all.len() {
                    all[i]
                } else {
                    0u8
                },
        )
    }
}

/// Typing, Enter, Backspace and the cursor keys keep the state well
/// formed.
pub proof fn lemma_typed_wf(s: EditorView, ch: u8)
    requires
        s.wf(),
    ensures
        s.typed(ch).wf(),
{
    let t = s.typed(ch);
    if s.cursor_col < MAX_LINE_LENGTH {
        assert forall|i: int| 0 <= i < t.lines.len() implies (#[trigger] t.lines[i]).len()
            <= MAX_LINE_LENGTH by {
            if i != s.cursor_line {
                assert(t.lines[i] == s.lines[i]);
            }
        }
    }
}

pub proof fn lemma_newline_wf(s: EditorView)
    requires
        s.wf(),
    ensures
        s.newline().wf(),
{
    let t = s.newline();
    if s.lines.len() < MAX_LINES {
        assert forall|i: int| 0 <= i < t.lines.len() implies (#[trigger] t.lines[i]).len()
            <= MAX_LINE_LENGTH by {
            if i < s.cursor_line {
                assert(t.lines[i] == s.lines[i]);
            } else if i > s.cursor_line + 1 {
                assert(t.lines[i] == s.lines[i - 1]);
            }
        }
    }
}

pub proof fn lemma_backspace_wf(s: EditorView)
    requires
        s.wf(),
    ensures
        s.backspace().wf(),
{
    let t = s.backspace();
    if s.cursor_col > 0 {
        assert forall|i: int| 0 <= i < t.lines.len() implies (#[trigger] t.lines[i]).len()
            <= MAX_LINE_LENGTH by {
            if i != s.cursor_line {
                assert(t.lines[i] == s.lines[i]);
            }
        }
    } else if s.cursor_line > 0 {
        assert forall|i: int| 0 <= i < t.lines.len() implies (#[trigger] t.lines[i]).len()
            <= MAX_LINE_LENGTH by {
            if i < s.cursor_line - 1 {
                assert(t.lines[i] == s.lines[i]);
            } else if i >= s.cursor_line {
                assert(t.lines[i] == s.lines[i + 1]);
            }
        }
        assert(s.lines[s.cursor_line - 1].len() <= MAX_LINE_LENGTH);
    }
}

pub struct TextEditor {
    x: u64,
    y: u64,
    width: u64,
    height: u64,
    title: &'static str,
    visible: bool,
    lines: [[u8; 80]; 30],
    line_lengths: [usize; 30],
    total_lines: usize,
    cursor_line: usize,
    cursor_col: usize,
    scroll_offset: usize,
    bg_color: u32,
    text_color: u32,
    cursor_color: u32,
}

impl View for TextEditor {
    type V = EditorView;

    closed spec fn view(&self) -> EditorView {
        EditorView {
            lines: Seq::new(self.total_lines as nat, |i: int| self.row(i)),
            cursor_line: self.cursor_line as int,
            cursor_col: self.cursor_col as int,
            scroll_offset: self.scroll_offset as int,
            visible_lines: (self.height - CHROME_HEIGHT) / (LINE_HEIGHT as int),
        }
    }
}

impl TextEditor {
    /// The characters of line `i`.
    pub closed spec fn row(&self, i: int) -> Seq<u8> {
        self.lines[i]@.take(self.line_lengths[i] as int)
    }

    /// Place and size of the window: x, y, width, height.
    pub open spec fn frame(&self) -> (u64, u64, u64, u64) {
        (self.look().x, self.look().y, self.look().width, self.look().height)
    }

    /// How the window looks.
    pub closed spec fn look(&self) -> EditorLook {
        EditorLook {
            x: self.x,
            y: self.y,
            width: self.width,
            height: self.height,
            title: self.title,
            visible: self.visible,
            bg_color: self.bg_color,
            text_color: self.text_color,
            cursor_color: self.cursor_color,
        }
    }

    /// Whether the window is shown.
    pub open spec fn shown(&self) -> bool {
        self.look().visible
    }

    /// The title of the window.
    pub open spec fn caption(&self) -> &'static str {
        self.look().title
    }

    /// The lengths fit the lines.
    pub closed spec fn bounded(&self) -> bool {
        &&& self.total_lines <= MAX_LINES
        &&& forall|i: int| 0 <= i < MAX_LINES ==> #[trigger] self.line_lengths[i] <= MAX_LINE_LENGTH
    }

    /// What every method asks for and keeps.
    pub open spec fn wf(&self) -> bool {
        self.bounded() && self@.wf() && self.look().wf()
    }

    /// An editor with one empty line in a window of the given place and
    /// size.
    pub fn new(x: u64, y: u64, width: u64, height: u64, title: &'static str) -> (r: Self)
        requires
            x <= COORD_LIMIT,
            y <= COORD_LIMIT,
            width <= COORD_LIMIT,
            CHROME_HEIGHT <= height <= COORD_LIMIT,
            text_fits(title),
        ensures
            r.wf(),
            r.look() == (EditorLook {
                x,
                y,
                width,
                height,
                title,
                visible: true,
                bg_color: dark_theme::SURFACE,
                text_color: dark_theme::TEXT_PRIMARY,
                cursor_color: dark_theme::ACCENT_PRIMARY,
            }),
            r@.lines == seq![Seq::<u8>::empty()],
            r@.cursor_line == 0,
            r@.cursor_col == 0,
            r@.scroll_offset == 0,
            r@.visible_lines == (height - CHROME_HEIGHT) / (LINE_HEIGHT as int),
    {
        let r = TextEditor {
            x,
            y,
            width,
            height,
            title,
            visible: true,
            lines: [[SPACE; 80]; 30],
            line_lengths: [0; 30],
            total_lines: 1,
            cursor_line: 0,
            cursor_col: 0,
            scroll_offset: 0,
            bg_color: dark_theme::SURFACE,
            text_color: dark_theme::TEXT_PRIMARY,
            cursor_color: dark_theme::ACCENT_PRIMARY,
        };
        proof {
            assert(r.row(0) =~= Seq::<u8>::empty());
            assert(r@.lines =~= seq![Seq::<u8>::empty()]);
        }
        r
    }

    /// Lines that fit into the window.
    fn visible_lines(&self) -> (r: u64)
        requires
            self.wf(),
        ensures
            r == self@.visible_lines,
    {
        (self.height - CHROME_HEIGHT) / LINE_HEIGHT
    }

    /// Where the cursor is: line and column.
    pub fn cursor(&self) -> (r: (usize, usize))
        ensures
            r.0 == self@.cursor_line,
            r.1 == self@.cursor_col,
    {
        (self.cursor_line, self.cursor_col)
    }

    /// The first line that is shown.
    pub fn scroll_offset(&self) -> (r: usize)
        ensures
            r == self@.scroll_offset,
    {
        self.scroll_offset
    }

    /// Number of lines of the text.
    pub fn line_count(&self) -> (r: usize)
        ensures
            r == self@.lines.len(),
    {
        self.total_lines
    }

    /// The characters of line `i`, if there is such a line.
    pub fn line(&self, i: usize) -> (r: Option<Vec<u8>>)
        requires
            self.wf(),
        ensures
            match r {
                Some(v) => i < self@.lines.len() && v@ == self@.lines[i as int],
                None => i >= self@.lines.len(),
            },
    {
        if i >= self.total_lines {
            return None;
        }
        let row = self.lines[i];
        let len = self.line_lengths[i];
        let mut out: Vec<u8> = Vec::new();
        let mut k: usize = 0;
        while k < len
            invariant
                0 <= k <= len <= MAX_LINE_LENGTH,
                out@ == row@.take(k as int),
            decreases len - k,
        {
            out.push(row[k]);
            assert(row@.take(k + 1) =~= row@.take(k as int).push(row@[k as int]));
            k = k + 1;
        }
        Some(out)
    }

    /// Moves the cursor up by a line.
    pub fn move_cursor_up(&mut self)
        requires
            old(self).wf(),
        ensures
            final(self).wf(),
            final(self).look() == old(self).look(),
            final(self)@ == old(self)@.up(),
    {
        if self.cursor_line > 0 {
            self.cursor_line = self.cursor_line - 1;
            let len = self.line_lengths[self.cursor_line];
            if self.cursor_col > len {
                self.cursor_col = len;
            }
            if self.cursor_line < self.scroll_offset {
                self.scroll_offset = self.cursor_line;
            }
            proof {
                assert(self@.lines =~= old(self)@.lines);
            }
        }
    }

    /// Moves the cursor down by a line.
    pub fn move_cursor_down(&mut self)
        requires
            old(self).wf(),
        ensures
            final(self).wf(),
            final(self).look() == old(self).look(),
            final(self)@ == old(self)@.down(),
    {
        if self.cursor_line + 1 < self.total_lines {
            let visible = self.visible_lines();
            self.cursor_line = self.cursor_line + 1;
            let len = self.line_lengths[self.cursor_line];
            if self.cursor_col > len {
                self.cursor_col = len;
            }
            if self.cursor_line as u64 >= self.scroll_offset as u64 + visible {
                self.scroll_offset = self.scroll_offset + 1;
            }
            proof {
                assert(self@.lines =~= old(self)@.lines);
            }
        }
    }

    /// Moves the cursor left by a character, to the end of the line
    /// above from the start of a line.
    pub fn move_cursor_left(&mut self)
        requires
            old(self).wf(),
        ensures
            final(self).wf(),
            final(self).look() == old(self).look(),
            final(self)@ == old(self)@.left(),
    {
        if self.cursor_col > 0 {
            self.cursor_col = self.cursor_col - 1;
        } else if self.cursor_line > 0 {
            self.cursor_line = self.cursor_line - 1;
            self.cursor_col = self.line_lengths[self.cursor_line];
        }
        proof {
            assert(self@.lines =~= old(self)@.lines);
        }
    }

    /// Moves the cursor right by a character, to the start of the line
    /// below from the end of a line.
    pub fn move_cursor_right(&mut self)
        requires
            old(self).wf(),
        ensures
            final(self).wf(),
            final(self).look() == old(self).look(),
            final(self)@ == old(self)@.right(),
    {
        if self.cursor_col < self.line_lengths[self.cursor_line] {
            self.cursor_col = self.cursor_col + 1;
        } else if self.cursor_line + 1 < self.total_lines {
            self.cursor_line = self.cursor_line + 1;
            self.cursor_col = 0;
        }
        proof {
            assert(self@.lines =~= old(self)@.lines);
        }
    }

    /// Whether the point lies on the title bar of the window.
    pub fn is_titlebar_clicked(&self, mouse_x: u64, mouse_y: u64) -> (r: bool)
        requires
            self.wf(),
        ensures
            r == crate::widgets::in_rect(
                mouse_x as int,
                mouse_y as int,
                self.frame().0 as int,
                self.frame().1 as int,
                self.frame().2 as int,
                30,
            ),
    {
        mouse_x >= self.x && mouse_x < self.x + self.width && mouse_y >= self.y && mouse_y < self.y
            + 30
    }

    /// Types a printable character at the cursor.
    fn type_char(&mut self, ch: u8)
        requires
            old(self).wf(),
        ensures
            final(self).wf(),
            final(self).look() == old(self).look(),
            final(self)@ == old(self)@.typed(ch),
    {
        if self.cursor_col < MAX_LINE_LENGTH {
            let cl: usize = self.cursor_line;
            let col: usize = self.cursor_col;
            let len: usize = self.line_lengths[cl];
            let ghost before = self.lines[cl as int]@;
            let mut row: [u8; 80] = self.lines[cl];
            let mut i: usize = len;
            while i > col
                invariant
                    col <= i <= len <= MAX_LINE_LENGTH,
                    before.len() == MAX_LINE_LENGTH,
                    forall|k: int| 0 <= k <= i ==> row[k] == before[k],
                    forall|k: int| i < k <= len && k < MAX_LINE_LENGTH ==> row[k] == before[k - 1],
                    forall|k: int| len < k < MAX_LINE_LENGTH ==> row[k] == before[k],
                decreases i,
            {
                i = i - 1;
                if i + 1 < MAX_LINE_LENGTH {
                    row[i + 1] = row[i];
                }
            }
            row[col] = ch;
            let new_len: usize = if len < MAX_LINE_LENGTH {
                len + 1
            } else {
                MAX_LINE_LENGTH
            };
            self.lines[cl] = row;
            self.line_lengths[cl] = new_len;
            self.cursor_col = col + 1;
            proof {
                let cur = old(self)@.current();
                assert(cur =~= before.take(len as int));
                assert(self.row(cl as int) =~= cur.insert(col as int, ch).take(new_len as int));
                assert forall|j: int| 0 <= j < self.total_lines && j != cl implies self.row(j)
                    == old(self).row(j) by {}
                assert(self@.lines =~= old(self)@.typed(ch).lines);
                lemma_typed_wf(old(self)@, ch);
            }
        }
    }

    /// Rubs out the character before the cursor, or joins the line to the
    /// one above.
    pub fn backspace(&mut self)
        requires
            old(self).wf(),
        ensures
            final(self).wf(),
            final(self).look() == old(self).look(),
            final(self)@ == old(self)@.backspace(),
    {
        proof {
            lemma_backspace_wf(old(self)@);
        }
        if self.cursor_col > 0 {
            let cl: usize = self.cursor_line;
            let col: usize = self.cursor_col - 1;
            let len: usize = self.line_lengths[cl];
            let ghost before = self.lines[cl as int]@;
            let mut row: [u8; 80] = self.lines[cl];
            let mut i: usize = col;
            while i + 1 < len
                invariant
                    col <= i < len <= MAX_LINE_LENGTH,
                    before.len() == MAX_LINE_LENGTH,
                    forall|k: int| 0 <= k < col ==> row[k] == before[k],
                    forall|k: int| col <= k < i ==> row[k] == before[k + 1],
                    forall|k: int| i <= k < MAX_LINE_LENGTH ==> row[k] == before[k],
                decreases len - i,
            {
                row[i] = row[i + 1];
                i = i + 1;
            }
            row[len - 1] = SPACE;
            self.lines[cl] = row;
            self.line_lengths[cl] = len - 1;
            self.cursor_col = col;
            proof {
                let cur = old(self)@.current();
                assert(cur =~= before.take(len as int));
                assert(self.row(cl as int) =~= cur.remove(col as int));
                assert forall|j: int| 0 <= j < self.total_lines && j != cl implies self.row(j)
                    == old(self).row(j) by {}
                assert(self@.lines =~= old(self)@.backspace().lines);
            }
        } else if self.cursor_line > 0 {
            let cl: usize = self.cursor_line;
            let prev: usize = cl - 1;
            let prev_len: usize = self.line_lengths[prev];
            let current_len: usize = self.line_lengths[cl];
            let ghost above = self.lines[prev as int]@;
            let ghost below = self.lines[cl as int]@;
            let source: [u8; 80] = self.lines[cl];
            let mut row: [u8; 80] = self.lines[prev];
            let mut i: usize = 0;
            while i < current_len
                invariant
                    0 <= i <= current_len <= MAX_LINE_LENGTH,
                    prev_len <= MAX_LINE_LENGTH,
                    source@ == below,
                    above.len() == MAX_LINE_LENGTH,
                    forall|k: int| 0 <= k < prev_len ==> row[k] == above[k],
                    forall|k: int|
                        prev_len <= k < prev_len + i && k < MAX_LINE_LENGTH ==> row[k] == below[k
                            - prev_len],
                decreases current_len - i,
            {
                if prev_len + i < MAX_LINE_LENGTH {
                    row[prev_len + i] = source[i];
                }
                i = i + 1;
            }
            let joined_len: usize = if prev_len + current_len > MAX_LINE_LENGTH {
                MAX_LINE_LENGTH
            } else {
                prev_len + current_len
            };
            self.lines[prev] = row;
            self.line_lengths[prev] = joined_len;
            self.cursor_col = prev_len;
            let ghost mid = *self;
            let mut j: usize = cl;
            while j + 1 < self.total_lines
                invariant
                    cl <= j < self.total_lines <= MAX_LINES,
                    self.total_lines == mid.total_lines,
                    self.x == mid.x,
                    self.y == mid.y,
                    self.width == mid.width,
                    self.height == mid.height,
                    self.title == mid.title,
                    self.visible == mid.visible,
                    self.bg_color == mid.bg_color,
                    self.text_color == mid.text_color,
                    self.cursor_color == mid.cursor_color,
                    self.cursor_line == mid.cursor_line,
                    self.cursor_col == mid.cursor_col,
                    self.scroll_offset == mid.scroll_offset,
                    forall|k: int| 0 <= k < MAX_LINES ==> #[trigger] mid.line_lengths[k] <= MAX_LINE_LENGTH,
                    forall|k: int| 0 <= k < MAX_LINES ==> #[trigger] self.line_lengths[k] <= MAX_LINE_LENGTH,
                    forall|k: int|
                        0 <= k < cl ==> self.lines[k] == mid.lines[k] && self.line_lengths[k]
                            == mid.line_lengths[k],
                    forall|k: int|
                        cl <= k < j ==> self.lines[k] == mid.lines[k + 1] && self.line_lengths[k]
                            == mid.line_lengths[k + 1],
                    forall|k: int|
                        j <= k < MAX_LINES ==> self.lines[k] == mid.lines[k] && self.line_lengths[k]
                            == mid.line_lengths[k],
                decreases self.total_lines - j,
            {
                self.lines[j] = self.lines[j + 1];
                self.line_lengths[j] = self.line_lengths[j + 1];
                j = j + 1;
            }
            self.cursor_line = prev;
            self.total_lines = self.total_lines - 1;
            self.lines[self.total_lines] = [SPACE; 80];
            self.line_lengths[self.total_lines] = 0;
            proof {
                let s = old(self)@;
                let both = s.lines[prev as int] + s.current();
                assert(s.lines[prev as int] =~= above.take(prev_len as int));
                assert(s.current() =~= below.take(current_len as int));
                assert(mid.row(prev as int) =~= (if both.len() > MAX_LINE_LENGTH {
                    both.take(MAX_LINE_LENGTH as int)
                } else {
                    both
                }));
                assert forall|k: int| 0 <= k < self.total_lines implies self.row(k)
                    == s.backspace().lines[k] by {
                    if k < prev {
                        assert(mid.lines[k] == old(self).lines[k]);
                        assert(mid.line_lengths[k] == old(self).line_lengths[k]);
                        assert(self.lines[k] == mid.lines[k]);
                        assert(self.line_lengths[k] == mid.line_lengths[k]);
                        assert(self.row(k) == old(self).row(k));
                        assert(s.lines[k] == old(self).row(k));
                    } else if k == prev {
                        assert(self.row(k) == mid.row(k));
                    } else {
                        assert(self.row(k) == mid.row(k + 1));
                        assert(mid.row(k + 1) == old(self).row(k + 1));
                        assert(s.lines[k + 1] == old(self).row(k + 1));
                    }
                }
                assert(self@.lines =~= s.backspace().lines);
            }
        }
    }

    /// Splits the line at the cursor.
    pub fn insert_newline(&mut self)
        requires
            old(self).wf(),
        ensures
            final(self).wf(),
            final(self).look() == old(self).look(),
            final(self)@ == old(self)@.newline(),
    {
        proof {
            lemma_newline_wf(old(self)@);
        }
        if self.total_lines >= MAX_LINES {
            return ;
        }
        let visible = self.visible_lines();
        let cl: usize = self.cursor_line;
        let col: usize = self.cursor_col;
        let current_len: usize = self.line_lengths[cl];
        let mut j: usize = self.total_lines;
        while j > cl + 1
            invariant
                cl + 1 <= j <= self.total_lines < MAX_LINES,
                self.total_lines == old(self).total_lines,
                self.x == old(self).x,
                self.y == old(self).y,
                self.width == old(self).width,
                self.height == old(self).height,
                self.title == old(self).title,
                self.visible == old(self).visible,
                self.bg_color == old(self).bg_color,
                self.text_color == old(self).text_color,
                self.cursor_color == old(self).cursor_color,
                self.cursor_line == old(self).cursor_line,
                self.cursor_col == old(self).cursor_col,
                self.scroll_offset == old(self).scroll_offset,
                forall|k: int| 0 <= k < MAX_LINES ==> #[trigger] old(self).line_lengths[k] <= MAX_LINE_LENGTH,
                forall|k: int| 0 <= k < MAX_LINES ==> #[trigger] self.line_lengths[k] <= MAX_LINE_LENGTH,
                forall|k: int|
                    0 <= k < j ==> self.lines[k] == old(self).lines[k] && self.line_lengths[k] == old(
                        self,
                    ).line_lengths[k],
                forall|k: int|
                    j < k <= self.total_lines ==> self.lines[k] == old(self).lines[k - 1]
                        && self.line_lengths[k] == old(self).line_lengths[k - 1],
            decreases j,
        {
            j = j - 1;
            self.lines[j + 1] = self.lines[j];
            self.line_lengths[j + 1] = self.line_lengths[j];
        }
        let source: [u8; 80] = self.lines[cl];
        let chars_to_copy: usize = current_len - col;
        let mut row: [u8; 80] = self.lines[cl + 1];
        let mut i: usize = 0;
        while i < chars_to_copy
            invariant
                0 <= i <= chars_to_copy,
                col + chars_to_copy == current_len <= MAX_LINE_LENGTH,
                forall|k: int| 0 <= k < i ==> row[k] == source[col + k],
            decreases chars_to_copy - i,
        {
            row[i] = source[col + i];
            i = i + 1;
        }
        self.lines[cl + 1] = row;
        self.line_lengths[cl + 1] = chars_to_copy;
        self.line_lengths[cl] = col;
        self.cursor_line = cl + 1;
        self.cursor_col = 0;
        self.total_lines = self.total_lines + 1;
        if self.cursor_line as u64 >= self.scroll_offset as u64 + visible {
            self.scroll_offset = self.scroll_offset + 1;
        }
        proof {
            let s = old(self)@;
            let cur = s.current();
            assert(cur =~= source@.take(current_len as int));
            assert(self.row(cl as int) =~= cur.take(col as int));
            assert(self.row(cl + 1) =~= cur.skip(col as int));
            assert forall|k: int| 0 <= k < self.total_lines implies self.row(k)
                == s.newline().lines[k] by {
                if k < cl {
                    assert(self.row(k) == old(self).row(k));
                    assert(s.lines[k] == old(self).row(k));
                } else if k > cl + 1 {
                    assert(self.row(k) == old(self).row(k - 1));
                    assert(s.lines[k - 1] == old(self).row(k - 1));
                }
            }
            assert(self@.lines =~= s.newline().lines);
        }
    }

    /// Takes one byte from the keyboard.
    pub fn input_char(&mut self, ch: u8)
        requires
            old(self).wf(),
        ensures
            final(self).wf(),
            final(self).look() == old(self).look(),
            final(self)@ == old(self)@.input(ch),
    {
        if ch == 0x0A || ch == 0x0D {
            self.insert_newline();
        } else if ch == 8 || ch == 127 {
            self.backspace();
        } else if ch == 9 {
            self.type_char(SPACE);
            self.type_char(SPACE);
            self.type_char(SPACE);
            self.type_char(SPACE);
        } else if 32 <= ch && ch <= 126 {
            self.type_char(ch);
        }
    }

    /// The whole text, the lines joined by line feeds, in a buffer of
    /// `TEXT_SIZE` bytes; what does not fit is left out, and what is left
    /// of the buffer is zero.
    pub fn get_text(&self) -> (r: [u8; 2400])
        requires
            self.wf(),
        ensures
            r@ == self@.text(),
    {
        let mut result: [u8; 2400] = [0u8; 2400];
        let mut pos: usize = 0;
        let ghost lines = self@.lines;
        let mut line_idx: usize = 0;
        while line_idx < self.total_lines
            invariant
                0 <= line_idx <= self.total_lines,
                self.wf(),
                lines == self@.lines,
                0 <= pos <= TEXT_SIZE,
                line_idx < self.total_lines ==> (pos == text_upto(lines, line_idx as int, 0).len()
                    || (pos == TEXT_SIZE && text_upto(lines, line_idx as int, 0).len()
                    > TEXT_SIZE)),
                line_idx < self.total_lines ==> forall|j: int|
                    0 <= j < pos ==> result[j] == text_upto(lines, line_idx as int, 0)[j],
                line_idx == self.total_lines ==> (pos == joined(lines, lines.len() as int).len()
                    || (pos == TEXT_SIZE && joined(lines, lines.len() as int).len() > TEXT_SIZE)),
                line_idx == self.total_lines ==> forall|j: int|
                    0 <= j < pos ==> result[j] == joined(lines, lines.len() as int)[j],
                forall|j: int| pos <= j < TEXT_SIZE ==> result[j] == 0,
            decreases self.total_lines - line_idx,
        {
            let len: usize = self.line_lengths[line_idx];
            let row: [u8; 80] = self.lines[line_idx];
            proof {
                lemma_text_upto(lines, line_idx as int);
                assert(lines[line_idx as int] =~= row@.take(len as int));
            }
            let mut i: usize = 0;
            while i < len
                invariant
                    0 <= i <= len <= MAX_LINE_LENGTH,
                    line_idx < lines.len(),
                    lines[line_idx as int] == row@.take(len as int),
                    0 <= pos <= TEXT_SIZE,
                    forall|k: int|
                        0 <= k < lines[line_idx as int].len() ==> #[trigger] text_upto(
                            lines,
                            line_idx as int,
                            k + 1,
                        ) == text_upto(lines, line_idx as int, k).push(lines[line_idx as int][k]),
                    pos == text_upto(lines, line_idx as int, i as int).len() || (pos == TEXT_SIZE
                        && text_upto(lines, line_idx as int, i as int).len() > TEXT_SIZE),
                    forall|j: int|
                        0 <= j < pos ==> result[j] == text_upto(lines, line_idx as int, i as int)[j],
                    forall|j: int| pos <= j < TEXT_SIZE ==> result[j] == 0,
                decreases len - i,
            {
                proof {
                    assert(text_upto(lines, line_idx as int, i + 1) == text_upto(
                        lines,
                        line_idx as int,
                        i as int,
                    ).push(lines[line_idx as int][i as int]));
                }
                if pos < TEXT_SIZE {
                    result[pos] = row[i];
                    pos = pos + 1;
                }
                i = i + 1;
            }
            if pos < TEXT_SIZE && line_idx + 1 < self.total_lines {
                result[pos] = NEWLINE;
                pos = pos + 1;
            }
            line_idx = line_idx + 1;
        }
        proof {
            assert(result@ =~= self@.text());
        }
        result
    }

    /// Whether the window is shown.
    pub fn is_visible(&self) -> (r: bool)
        ensures
            r == self.shown(),
    {
        self.visible
    }

    /// Shows or hides the window.
    pub fn set_visible(&mut self, visible: bool)
        requires
            old(self).wf(),
        ensures
            final(self).wf(),
            final(self).look() == (EditorLook { visible, ..old(self).look() }),
            final(self)@ == old(self)@,
    {
        self.visible = visible;
        proof {
            assert(self@.lines =~= old(self)@.lines);
        }
    }

    /// The title of the window.
    pub fn title(&self) -> (r: &'static str)
        ensures
            r == self.caption(),
    {
        self.title
    }

    /// The steps that draw the characters of `row` that show, starting
    /// at `(x, y)`.
    fn line_list(row: &[u8; 80], len: usize, x: u64, y: u64, color: u32) -> (r: Vec<DrawCommand>)
        requires
            len <= MAX_LINE_LENGTH,
            x <= 4 * COORD_LIMIT,
            y <= 4 * COORD_LIMIT,
        ensures
            r@ == line_commands(row@.take(len as int), len as int, x as int, y as int, color),
            all_valid(r@),
    {
        let ghost line = row@.take(len as int);
        let mut out: Vec<DrawCommand> = Vec::new();
        let mut col: usize = 0;
        while col < len
            invariant
                0 <= col <= len <= MAX_LINE_LENGTH,
                line == row@.take(len as int),
                x <= 4 * COORD_LIMIT,
                y <= 4 * COORD_LIMIT,
                out@ == line_commands(line, col as int, x as int, y as int, color),
                all_valid(out@),
            decreases len - col,
        {
            let ch: u8 = row[col];
            if ch != SPACE && ch >= 32 && ch < 127 {
                out.push(
                    DrawCommand::Glyph { x: x + (col as u64) * CHAR_WIDTH, y, ch: ch as char, color },
                );
            }
            col = col + 1;
        }
        out
    }

    /// The steps that draw the text.
    fn text_list(&self) -> (r: Vec<DrawCommand>)
        requires
            self.wf(),
        ensures
            r@ == text_commands(self.look(), self@, rows_drawn(self.look(), self@)),
            all_valid(r@),
    {
        let fit: u64 = self.visible_lines();
        let fit: usize = if fit < MAX_LINES as u64 {
            fit as usize
        } else {
            MAX_LINES
        };
        let there: usize = if self.total_lines > self.scroll_offset {
            self.total_lines - self.scroll_offset
        } else {
            0
        };
        let rows: usize = if there < fit {
            there
        } else {
            fit
        };
        let mut out: Vec<DrawCommand> = Vec::new();
        let mut line_idx: usize = 0;
        while line_idx < rows
            invariant
                0 <= line_idx <= rows <= MAX_LINES,
                rows == rows_drawn(self.look(), self@),
                self.wf(),
                out@ == text_commands(self.look(), self@, line_idx as int),
                all_valid(out@),
            decreases rows - line_idx,
        {
            let actual_line: usize = self.scroll_offset + line_idx;
            let y: u64 = self.y + 40 + (line_idx as u64) * LINE_HEIGHT;
            let digits = decimal_digits(actual_line + 1);
            let numbers = glyph_list(&digits, self.x + 5, y, dark_theme::TEXT_DISABLED);
            append_commands(&mut out, &numbers);
            let row: [u8; 80] = self.lines[actual_line];
            let chars = Self::line_list(
                &row,
                self.line_lengths[actual_line],
                self.x + 10,
                y,
                self.text_color,
            );
            append_commands(&mut out, &chars);
            proof {
                assert(self@.lines[actual_line as int] == self.row(actual_line as int));
            }
            line_idx = line_idx + 1;
        }
        out
    }

    /// The steps that draw the cursor.
    fn cursor_list(&self) -> (r: Vec<DrawCommand>)
        requires
            self.wf(),
        ensures
            r@ == cursor_commands(self.look(), self@),
            all_valid(r@),
    {
        let mut out: Vec<DrawCommand> = Vec::new();
        if self.cursor_line < self.scroll_offset {
            return out;
        }
        let visible_line: usize = self.cursor_line - self.scroll_offset;
        if visible_line as u64 >= self.visible_lines() {
            return out;
        }
        out.push(
            DrawCommand::FillRect {
                x: self.x + 10 + (self.cursor_col as u64) * CHAR_WIDTH,
                y: self.y + 40 + (visible_line as u64) * LINE_HEIGHT,
                width: 2,
                height: LINE_HEIGHT,
                color: self.cursor_color,
            },
        );
        assert(out@ =~= cursor_commands(self.look(), self@));
        out
    }

    /// The steps that draw the status bar.
    fn status_list(&self) -> (r: Vec<DrawCommand>)
        requires
            self.wf(),
        ensures
            r@ == status_commands(self.look(), self@),
            all_valid(r@),
    {
        let status_y: u64 = self.y + self.height - 20;
        let mut out: Vec<DrawCommand> = Vec::new();
        out.push(
            DrawCommand::FillRect {
                x: self.x,
                y: status_y,
                width: self.width,
                height: 20,
                color: dark_theme::SURFACE_VARIANT,
            },
        );
        let text = status_line(self.cursor_line + 1, self.cursor_col + 1);
        let glyphs = glyph_list(&text, self.x + 10, status_y + 6, dark_theme::TEXT_SECONDARY);
        append_commands(&mut out, &glyphs);
        out
    }

    /// The steps that draw the window without the text.
    fn frame_list(&self) -> (r: Vec<DrawCommand>)
        requires
            self.wf(),
        ensures
            r@ == frame_commands(self.look()),
            all_valid(r@),
    {
        let mut out: Vec<DrawCommand> = Vec::new();
        out.push(
            DrawCommand::FillRect {
                x: self.x + 3,
                y: self.y + 3,
                width: self.width,
                height: self.height,
                color: SHADOW,
            },
        );
        out.push(
            DrawCommand::FillRect {
                x: self.x,
                y: self.y,
                width: self.width,
                height: self.height,
                color: self.bg_color,
            },
        );
        out.push(
            DrawCommand::FillRect {
                x: self.x,
                y: self.y,
                width: self.width,
                height: 30,
                color: ui::TITLEBAR_ACTIVE,
            },
        );
        out.push(
            DrawCommand::Frame {
                x: self.x,
                y: self.y,
                width: self.width,
                height: self.height,
                color: dark_theme::BORDER,
                thickness: 1,
            },
        );
        out.push(
            DrawCommand::Text { x: self.x + 10, y: self.y + 11, text: self.title, color: WHITE },
        );
        out.push(
            DrawCommand::FillRect {
                x: self.x,
                y: self.y + 30,
                width: self.width,
                height: self.height - 30,
                color: dark_theme::BACKGROUND,
            },
        );
        assert(out@ =~= frame_commands(self.look()));
        out
    }

    /// The steps that draw the editor.
    pub fn display_list(&self) -> (r: Vec<DrawCommand>)
        requires
            self.wf(),
        ensures
            r@ == editor_commands(self.look(), self@),
            all_valid(r@),
    {
        if !self.visible {
            return Vec::new();
        }
        let mut out = self.frame_list();
        append_commands(&mut out, &self.text_list());
        append_commands(&mut out, &self.cursor_list());
        append_commands(&mut out, &self.status_list());
        out
    }

    /// Draws the editor: window, text, cursor and status bar.
    pub fn draw(&self, graphics: &mut Graphics)
        requires
            self.wf(),
            old(graphics)@.wf(),
        ensures
            final(graphics)@.drawn(
                old(graphics)@,
                list_paint(
                    editor_commands(self.look(), self@),
                    editor_commands(self.look(), self@).len() as int,
                ),
            ),
    {
        let list = self.display_list();
        run(graphics, &list);
    }

    /// Draws the text with its line numbers.
    pub fn draw_text(&self, graphics: &mut Graphics)
        requires
            self.wf(),
            old(graphics)@.wf(),
        ensures
            final(graphics)@.drawn(
                old(graphics)@,
                list_paint(
                    text_commands(self.look(), self@, rows_drawn(self.look(), self@)),
                    text_commands(self.look(), self@, rows_drawn(self.look(), self@)).len() as int,
                ),
            ),
    {
        let list = self.text_list();
        run(graphics, &list);
    }

    /// Draws the cursor.
    pub fn draw_cursor(&self, graphics: &mut Graphics)
        requires
            self.wf(),
            old(graphics)@.wf(),
        ensures
            final(graphics)@.drawn(
                old(graphics)@,
                list_paint(
                    cursor_commands(self.look(), self@),
                    cursor_commands(self.look(), self@).len() as int,
                ),
            ),
    {
        let list = self.cursor_list();
        run(graphics, &list);
    }

    /// Draws the status bar.
    pub fn draw_status_bar(&self, graphics: &mut Graphics)
        requires
            self.wf(),
            old(graphics)@.wf(),
        ensures
            final(graphics)@.drawn(
                old(graphics)@,
                list_paint(
                    status_commands(self.look(), self@),
                    status_commands(self.look(), self@).len() as int,
                ),
            ),
    {
        let list = self.status_list();
        run(graphics, &list);
    }
}

/// The decimal digits of `num`, highest first, as characters.
pub fn decimal_digits(num: usize) -> (r: Vec<u8>)
    requires
        num < 10000,
    ensures
        r@ == decimal(num as int),
        1 <= r@.len() <= 4,
{
    let mut out: Vec<u8> = Vec::new();
    if num >= 1000 {
        out.push((48 + num / 1000) as u8);
    }
    if num >= 100 {
        out.push((48 + num / 100 % 10) as u8);
    }
    if num >= 10 {
        out.push((48 + num / 10 % 10) as u8);
    }
    out.push((48 + num % 10) as u8);
    assert(out@ =~= decimal(num as int));
    out
}

/// The steps that draw the characters `chars` from `(x, y)` on.
pub fn glyph_list(chars: &Vec<u8>, x: u64, y: u64, color: u32) -> (r: Vec<DrawCommand>)
    requires
        x <= 4 * COORD_LIMIT,
        y <= 4 * COORD_LIMIT,
        chars@.len() <= COORD_LIMIT,
    ensures
        r@ == glyph_commands(chars@, x as int, y as int, color),
        all_valid(r@),
{
    let mut out: Vec<DrawCommand> = Vec::new();
    let mut current_x: u64 = x;
    let mut i: usize = 0;
    while i < chars.len()
        invariant
            0 <= i <= chars.len(),
            chars@.len() <= COORD_LIMIT,
            x <= 4 * COORD_LIMIT,
            y <= 4 * COORD_LIMIT,
            current_x == x + i * CHAR_WIDTH,
            out@ == glyph_commands(chars@.take(i as int), x as int, y as int, color),
            all_valid(out@),
        decreases chars.len() - i,
    {
        out.push(DrawCommand::Glyph { x: current_x, y, ch: chars[i] as char, color });
        proof {
            assert(out@ =~= glyph_commands(chars@.take(i + 1), x as int, y as int, color));
        }
        current_x = current_x + CHAR_WIDTH;
        i = i + 1;
    }
    proof {
        assert(chars@.take(chars@.len() as int) =~= chars@);
    }
    out
}

/// Draws the number of a line at `(x, y)`.
pub fn draw_line_number(graphics: &mut Graphics, x: u64, y: u64, num: usize, color: u32)
    requires
        old(graphics)@.wf(),
        x <= 4 * COORD_LIMIT,
        y <= 4 * COORD_LIMIT,
        num < 10000,
    ensures
        final(graphics)@.drawn(
            old(graphics)@,
            list_paint(
                glyph_commands(decimal(num as int), x as int, y as int, color),
                decimal(num as int).len() as int,
            ),
        ),
{
    let digits = decimal_digits(num);
    let list = glyph_list(&digits, x, y, color);
    run(graphics, &list);
}

/// Draws `num` at `(x, y)` and returns where the next character goes.
pub fn draw_number(graphics: &mut Graphics, x: u64, y: u64, num: usize, color: u32) -> (next: u64)
    requires
        old(graphics)@.wf(),
        x <= 4 * COORD_LIMIT,
        y <= 4 * COORD_LIMIT,
        num < 10000,
    ensures
        next == x + CHAR_WIDTH * decimal(num as int).len(),
        final(graphics)@.drawn(
            old(graphics)@,
            list_paint(
                glyph_commands(decimal(num as int), x as int, y as int, color),
                decimal(num as int).len() as int,
            ),
        ),
{
    let digits = decimal_digits(num);
    let list = glyph_list(&digits, x, y, color);
    run(graphics, &list);
    x + CHAR_WIDTH * (digits.len() as u64)
}

/// The characters of the status line for a cursor at `line` and `col`,
/// both counted from one.
pub fn status_line(line: usize, col: usize) -> (r: Vec<u8>)
    requires
        line < 10000,
        col < 10000,
    ensures
        r@ == seq![0x4Cu8, 0x6Eu8, 0x20u8] + decimal(line as int) + seq![
            0x2Cu8,
            0x20u8,
            0x43u8,
            0x6Fu8,
            0x6Cu8,
            0x20u8,
        ] + decimal(col as int),
        r@.len() <= 17,
{
    let mut out: Vec<u8> = Vec::new();
    out.push(0x4C);
    out.push(0x6E);
    out.push(0x20);
    let ghost head = out@;
    assert(head =~= seq![0x4Cu8, 0x6Eu8, 0x20u8]);
    let line_digits = decimal_digits(line);
    append_bytes(&mut out, &line_digits);
    let ghost with_line = out@;
    out.push(0x2C);
    out.push(0x20);
    out.push(0x43);
    out.push(0x6F);
    out.push(0x6C);
    out.push(0x20);
    assert(out@ =~= with_line + seq![0x2Cu8, 0x20u8, 0x43u8, 0x6Fu8, 0x6Cu8, 0x20u8]);
    let col_digits = decimal_digits(col);
    append_bytes(&mut out, &col_digits);
    out
}

/// Appends `more` to `bytes`.
pub fn append_bytes(bytes: &mut Vec<u8>, more: &Vec<u8>)
    ensures
        final(bytes)@ == old(bytes)@ + more@,
{
    let mut i: usize = 0;
    while i < more.len()
        invariant
            0 <= i <= more.len(),
            bytes@ == old(bytes)@ + more@.take(i as int),
        decreases more.len() - i,
    {
        bytes.push(more[i]);
        proof {
            assert(old(bytes)@ + more@.take(i + 1) =~= (old(bytes)@ + more@.take(i as int)).push(
                more@[i as int],
            ));
        }
        i = i + 1;
    }
    proof {
        assert(more@.take(more@.len() as int) =~= more@);
    }
}

/// Draws the status line at `(x, y)`.
pub fn draw_status(
    graphics: &mut Graphics,
    x: u64,
    y: u64,
    line: usize,
    col: usize,
    total: usize,
    color: u32,
)
    requires
        old(graphics)@.wf(),
        x <= 4 * COORD_LIMIT,
        y <= 4 * COORD_LIMIT,
        line < 10000,
        col < 10000,
    ensures
        final(graphics)@.drawn(
            old(graphics)@,
            list_paint(
                glyph_commands(
                    seq![0x4Cu8, 0x6Eu8, 0x20u8] + decimal(line as int) + seq![
                        0x2Cu8,
                        0x20u8,
                        0x43u8,
                        0x6Fu8,
                        0x6Cu8,
                        0x20u8,
                    ] + decimal(col as int),
                    x as int,
                    y as int,
                    color,
                ),
                (9 + decimal(line as int).len() + decimal(col as int).len()) as int,
            ),
        ),
{
    let text = status_line(line, col);
    let list = glyph_list(&text, x, y, color);
    run(graphics, &list);
}

} // verus!
