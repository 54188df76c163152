//! Pixels on a screen: single pixels, rectangles, lines, circles and the
//! mouse cursor.

use vstd::prelude::*;
use vstd::string::*;

verus! {

/// Width of the mouse cursor in pixels.
pub const CURSOR_WIDTH: usize = 11;

/// Height of the mouse cursor in pixels.
pub const CURSOR_HEIGHT: usize = 19;

/// Colour of the inside of the mouse cursor: opaque black.
pub const CURSOR_FILL: u32 = 0xFF00_0000;

/// Lines and circles are drawn between points whose coordinates are no
/// larger than this in size.
pub const DRAW_LIMIT: i64 = 0x2000_0000;

/// The mathematical state of the screen.
pub struct Screen {
    pub width: int,
    pub height: int,
    pub pitch: int,
    /// The pixels row by row.
    pub pixels: Seq<u32>,
}

impl Screen {
    pub open spec fn wf(self) -> bool {
        0 <= self.width && 0 <= self.height && self.pixels.len() == self.width * self.height
    }

    /// Whether `(x, y)` lies on the screen.
    pub open spec fn on(self, x: int, y: int) -> bool {
        0 <= x < self.width && 0 <= y < self.height
    }

    /// The colour of pixel `(x, y)`.
    pub open spec fn at(self, x: int, y: int) -> u32 {
        self.pixels[y * self.width + x]
    }

    /// Whether this screen is `before` with `paint` laid over it: where
    /// `paint` names a colour the pixel has it, elsewhere the pixel is as
    /// it was.
    pub open spec fn drawn(self, before: Screen, paint: spec_fn(int, int) -> Option<u32>) -> bool {
        &&& self.wf()
        &&& self.width == before.width
        &&& self.height == before.height
        &&& self.pitch == before.pitch
        &&& forall|x: int, y: int|
            before.on(x, y) ==> #[trigger] self.at(x, y) == (match paint(x, y) {
                Some(c) => c,
                None => before.at(x, y),
            })
    }
}

/// Every pixel of the screen has a place of its own in the row of pixels.
pub proof fn lemma_pixel_index(width: int, height: int, x: int, y: int, x2: int, y2: int)
    requires
        0 <= x < width,
        0 <= y < height,
        0 <= x2 < width,
        0 <= y2 < height,
    ensures
        0 <= y * width + x < width * height,
        (y * width + x == y2 * width + x2) <==> (x == x2 && y == y2),
{
    assert(0 <= y * width && y * width + width <= height * width) by (nonlinear_arith)
        requires
            0 <= y < height,
            0 <= width,
    ;
    assert(width * height == height * width) by (nonlinear_arith);
    if y < y2 {
        assert(y * width + width <= y2 * width) by (nonlinear_arith)
            requires
                y < y2,
                0 <= width,
        ;
    }
    if y2 < y {
        assert(y2 * width + width <= y * width) by (nonlinear_arith)
            requires
                y2 < y,
                0 <= width,
        ;
    }
}

/// Whether `(px, py)` lies in the rectangle with corner `(x, y)` and the
/// given size.
pub open spec fn in_box(px: int, py: int, x: int, y: int, width: int, height: int) -> bool {
    x <= px < x + width && y <= py < y + height
}

/// Whether `(px, py)` lies on the frame of the rectangle with corner
/// `(x, y)` and the given size: within `thickness` of its top or bottom
/// edge, or of its left or right edge.
pub open spec fn on_frame(
    px: int,
    py: int,
    x: int,
    y: int,
    width: int,
    height: int,
    thickness: int,
) -> bool {
    ||| x <= px < x + width && (y <= py < y + thickness || (y + height - thickness <= py < y
        + height))
    ||| y <= py < y + height && (x <= px < x + thickness || (x + width - thickness <= px < x
        + width))
}

/// The rows of the mouse cursor: bit `c` of row `r` is set where the
/// outline of the arrow lies.
pub open spec fn cursor_outline() -> Seq<u16> {
    seq![
        0x001u16,
        0x003u16,
        0x005u16,
        0x009u16,
        0x011u16,
        0x021u16,
        0x041u16,
        0x081u16,
        0x101u16,
        0x201u16,
        0x401u16,
        0x781u16,
        0x091u16,
        0x129u16,
        0x125u16,
        0x123u16,
        0x241u16,
        0x240u16,
        0x180u16,
    ]
}

/// The rows of the mouse cursor: bit `c` of row `r` is set where the
/// inside of the arrow lies.
pub open spec fn cursor_inside() -> Seq<u16> {
    seq![
        0x000u16,
        0x000u16,
        0x002u16,
        0x006u16,
        0x00Eu16,
        0x01Eu16,
        0x03Eu16,
        0x07Eu16,
        0x0FEu16,
        0x1FEu16,
        0x3FEu16,
        0x07Eu16,
        0x06Eu16,
        0x0C6u16,
        0x0C2u16,
        0x0C0u16,
        0x180u16,
        0x180u16,
        0x000u16,
    ]
}

/// Whether bit `col` of `row` is set.
pub open spec fn row_bit(row: u16, col: int) -> bool {
    (row >> (col as u16)) & 1u16 == 1u16
}

/// What the mouse cursor with its tip at `(x, y)` puts on pixel
/// `(px, py)`: `color` on the outline, black inside, nothing elsewhere.
pub open spec fn cursor_paint(px: int, py: int, x: int, y: int, color: u32) -> Option<u32> {
    if in_box(px, py, x, y, CURSOR_WIDTH as int, CURSOR_HEIGHT as int) {
        if row_bit(cursor_outline()[py - y], px - x) {
            Some(color)
        } else if row_bit(cursor_inside()[py - y], px - x) {
            Some(CURSOR_FILL)
        } else {
            None
        }
    } else {
        None
    }
}

/// Whether `(px, py)` has had its turn when a box with corner `(x, y)`
/// and width `width` is gone through row by row and `rows` rows and
/// `cols` pixels of the next row are done.
pub open spec fn passed(px: int, py: int, x: int, y: int, width: int, rows: int, cols: int) -> bool {
    in_box(px, py, x, y, width, rows) || (py == y + rows && x <= px < x + cols)
}

/// One more pixel painted: what was drawn so far, and the pixel on top.
pub proof fn lemma_paint_step(
    before: Screen,
    mid: Screen,
    after: Screen,
    paint: spec_fn(int, int) -> Option<u32>,
    done: spec_fn(int, int) -> bool,
    done2: spec_fn(int, int) -> bool,
    x: int,
    y: int,
)
    requires
        mid.drawn(
            before,
            |px: int, py: int|
                if done(px, py) {
                    paint(px, py)
                } else {
                    None
                },
        ),
        after.drawn(
            mid,
            |px: int, py: int|
                if px == x && py == y {
                    paint(x, y)
                } else {
                    None
                },
        ),
        forall|px: int, py: int| #[trigger] done2(px, py) == (done(px, py) || (px == x && py == y)),
    ensures
        after.drawn(
            before,
            |px: int, py: int|
                if done2(px, py) {
                    paint(px, py)
                } else {
                    None
                },
        ),
{
    assert forall|px: int, py: int| before.on(px, py) implies #[trigger] after.at(px, py) == (match (
    if done2(px, py) {
        paint(px, py)
    } else {
        None
    }) {
        Some(c) => c,
        None => before.at(px, py),
    }) by {
        assert(mid.on(px, py));
        assert(mid.at(px, py) == mid.at(px, py));
        assert(done2(px, py) == (done(px, py) || (px == x && py == y)));
    }
}

/// A walk along a line, pixel by pixel: where it stands, where it ends,
/// and the bookkeeping that decides between a step across and a step
/// along.
pub struct LineWalk {
    pub x: int,
    pub y: int,
    pub err: int,
    pub x1: int,
    pub y1: int,
    pub dx: int,
    pub dy: int,
    pub sx: int,
    pub sy: int,
}

impl LineWalk {
    /// The walk at the start of the line from `(x0, y0)` to `(x1, y1)`.
    pub open spec fn start(x0: int, y0: int, x1: int, y1: int) -> LineWalk {
        let dx = if x1 >= x0 {
            x1 - x0
        } else {
            x0 - x1
        };
        let dy = if y1 >= y0 {
            y1 - y0
        } else {
            y0 - y1
        };
        LineWalk {
            x: x0,
            y: y0,
            err: dx - dy,
            x1,
            y1,
            dx,
            dy,
            sx: if x0 < x1 {
                1
            } else {
                -1
            },
            sy: if y0 < y1 {
                1
            } else {
                -1
            },
        }
    }

    /// Steps still to go in x.
    pub open spec fn rx(self) -> int {
        if self.sx == 1 {
            self.x1 - self.x
        } else {
            self.x - self.x1
        }
    }

    /// Steps still to go in y.
    pub open spec fn ry(self) -> int {
        if self.sy == 1 {
            self.y1 - self.y
        } else {
            self.y - self.y1
        }
    }

    /// What holds all along the walk: it never goes past its end, and
    /// the bookkeeping agrees with the steps taken.
    pub open spec fn inv(self) -> bool {
        &&& self.sx == 1 || self.sx == -1
        &&& self.sy == 1 || self.sy == -1
        &&& 0 <= self.rx() <= self.dx
        &&& 0 <= self.ry() <= self.dy
        &&& self.err == self.dx - self.dy - self.ry() * self.dx + self.rx() * self.dy
    }

    /// Whether the walk has reached the end of the line.
    pub open spec fn done(self) -> bool {
        self.x == self.x1 && self.y == self.y1
    }

    /// The walk after one step.
    pub open spec fn next(self) -> LineWalk {
        let across = 2 * self.err > -self.dy;
        let along = 2 * self.err < self.dx;
        LineWalk {
            x: if across {
                self.x + self.sx
            } else {
                self.x
            },
            y: if along {
                self.y + self.sy
            } else {
                self.y
            },
            err: self.err - (if across {
                self.dy
            } else {
                0
            }) + (if along {
                self.dx
            } else {
                0
            }),
            ..self
        }
    }

    /// Whether the walk passes pixel `(px, py)` from here on.
    pub open spec fn hits(self, px: int, py: int) -> bool
        decreases self.rx() + self.ry(),
        when self.inv()
        via Self::hits_decreases
    {
        (px == self.x && py == self.y) || (!self.done() && self.next().hits(px, py))
    }

    #[via_fn]
    proof fn hits_decreases(self, px: int, py: int) {
        if !self.done() {
            lemma_line_step(self);
        }
    }
}

/// A step of a walk that is not at its end brings it closer to the end
/// and keeps it a walk.
pub proof fn lemma_line_step(w: LineWalk)
    requires
        w.inv(),
        !w.done(),
    ensures
        w.next().inv(),
        0 <= w.next().rx() + w.next().ry() < w.rx() + w.ry(),
{
    let rx = w.rx();
    let ry = w.ry();
    let dx = w.dx;
    let dy = w.dy;
    assert(rx > 0 || ry > 0);
    assert(0 <= ry * dx && 0 <= rx * dy) by (nonlinear_arith)
        requires
            0 <= rx,
            0 <= ry,
            0 <= dx,
            0 <= dy,
    ;
    if rx == 0 {
        assert(ry * dx >= dx) by (nonlinear_arith)
            requires
                ry >= 1,
                dx >= 0,
        ;
    }
    if ry == 0 {
        assert(rx * dy >= dy) by (nonlinear_arith)
            requires
                rx >= 1,
                dy >= 0,
        ;
    }
    assert((rx - 1) * dy == rx * dy - dy) by (nonlinear_arith);
    assert((ry - 1) * dx == ry * dx - dx) by (nonlinear_arith);
}

/// The walk along a line starts as a walk.
pub proof fn lemma_line_start(x0: int, y0: int, x1: int, y1: int)
    ensures
        LineWalk::start(x0, y0, x1, y1).inv(),
        LineWalk::start(x0, y0, x1, y1).hits(x0, y0),
{
    let w = LineWalk::start(x0, y0, x1, y1);
    assert(w.dy * w.dx == w.dx * w.dy) by (nonlinear_arith);
}

/// A line passes its end.
pub proof fn lemma_line_reaches_end(w: LineWalk)
    requires
        w.inv(),
    ensures
        w.hits(w.x1, w.y1),
    decreases w.rx() + w.ry(),
{
    if !w.done() {
        lemma_line_step(w);
        lemma_line_reaches_end(w.next());
    }
}

/// Whether one of the eight points that mirror `(x, y)` about the centre
/// `(cx, cy)` is `(px, py)`.
pub open spec fn on_octants(px: int, py: int, cx: int, cy: int, x: int, y: int) -> bool {
    ||| (px == cx + x || px == cx - x) && (py == cy + y || py == cy - y)
    ||| (px == cx + y || px == cx - y) && (py == cy + x || py == cy - x)
}

/// Whether the circle around `(cx, cy)` passes `(px, py)` from the point
/// `(x, y)` of its first octant on, where `d` decides whether the next
/// point lies one row further in.
pub open spec fn circle_hits(px: int, py: int, cx: int, cy: int, x: int, y: int, d: int) -> bool
    decreases y - x + 2,
{
    if x > y {
        false
    } else {
        on_octants(px, py, cx, cy, x, y) || (if d < 0 {
            circle_hits(px, py, cx, cy, x + 1, y, d + 2 * x + 3)
        } else {
            circle_hits(px, py, cx, cy, x + 1, y - 1, d + 2 * (x - y) + 5)
        })
    }
}

/// What is painted on which pixel.
pub type Paint = spec_fn(int, int) -> Option<u32>;

/// `top` laid over `bottom`: where `top` names a colour it counts,
/// elsewhere `bottom` does.
pub open spec fn over(top: Paint, bottom: Paint) -> Paint {
    |x: int, y: int|
        match top(x, y) {
            Some(c) => Some(c),
            None => bottom(x, y),
        }
}

/// Paint that touches nothing.
pub open spec fn no_paint() -> Paint {
    |x: int, y: int| None
}

/// Drawing one thing and then another is drawing the second over the
/// first.
pub proof fn lemma_drawn_over(before: Screen, mid: Screen, after: Screen, bottom: Paint, top: Paint)
    requires
        mid.drawn(before, bottom),
        after.drawn(mid, top),
    ensures
        after.drawn(before, over(top, bottom)),
{
    assert forall|x: int, y: int| before.on(x, y) implies #[trigger] after.at(x, y) == (match over(
        top,
        bottom,
    )(x, y) {
        Some(c) => c,
        None => before.at(x, y),
    }) by {
        assert(mid.on(x, y));
        assert(mid.at(x, y) == mid.at(x, y));
    }
}

/// One step of drawing.
#[derive(Copy, Clone, Debug)]
pub enum DrawCommand {
    /// A filled rectangle.
    FillRect { x: u64, y: u64, width: u64, height: u64, color: u32 },
    /// The frame of a rectangle.
    Frame { x: u64, y: u64, width: u64, height: u64, color: u32, thickness: u64 },
    /// A line between two points.
    Line { x0: i64, y0: i64, x1: i64, y1: i64, color: u32 },
    /// A string of characters.
    Text { x: u64, y: u64, text: &'static str, color: u32 },
    /// A single character.
    Glyph { x: u64, y: u64, ch: char, color: u32 },
}

impl DrawCommand {
    /// Whether the step can be carried out: everything it touches has
    /// coordinates.
    pub open spec fn valid(self) -> bool {
        match self {
            DrawCommand::FillRect { x, y, width, height, color } => x + width <= u64::MAX && y
                + height <= u64::MAX,
            DrawCommand::Frame { x, y, width, height, color, thickness } => x + width <= u64::MAX
                && y + height <= u64::MAX && x + thickness <= u64::MAX && y + thickness
                <= u64::MAX,
            DrawCommand::Line { x0, y0, x1, y1, color } => -DRAW_LIMIT <= x0 <= DRAW_LIMIT
                && -DRAW_LIMIT <= y0 <= DRAW_LIMIT && -DRAW_LIMIT <= x1 <= DRAW_LIMIT
                && -DRAW_LIMIT <= y1 <= DRAW_LIMIT,
            DrawCommand::Text { x, y, text, color } => x + 9 * text@.len() + 8 <= u64::MAX && y + 8
                <= u64::MAX,
            DrawCommand::Glyph { x, y, ch, color } => x + 8 <= u64::MAX && y + 8 <= u64::MAX,
        }
    }

    /// What the step paints.
    pub open spec fn paint(self) -> Paint {
        match self {
            DrawCommand::FillRect { x, y, width, height, color } => |px: int, py: int|
                if in_box(px, py, x as int, y as int, width as int, height as int) {
                    Some(color)
                } else {
                    None
                },
            DrawCommand::Frame { x, y, width, height, color, thickness } => |px: int, py: int|
                if on_frame(
                    px,
                    py,
                    x as int,
                    y as int,
                    width as int,
                    height as int,
                    thickness as int,
                ) {
                    Some(color)
                } else {
                    None
                },
            DrawCommand::Line { x0, y0, x1, y1, color } => |px: int, py: int|
                if LineWalk::start(x0 as int, y0 as int, x1 as int, y1 as int).hits(px, py) {
                    Some(color)
                } else {
                    None
                },
            DrawCommand::Text { x, y, text, color } => |px: int, py: int|
                crate::fonts::string_paint(
                    text@,
                    text@.len() as int,
                    px,
                    py,
                    x as int,
                    y as int,
                    color,
                ),
            DrawCommand::Glyph { x, y, ch, color } => |px: int, py: int|
                crate::fonts::char_paint(ch, px, py, x as int, y as int, color),
        }
    }
}

/// What the first `n` of `commands` paint, one over the other in order.
pub open spec fn list_paint(commands: Seq<DrawCommand>, n: int) -> Paint
    decreases n,
{
    if n <= 0 {
        no_paint()
    } else {
        over(commands[n - 1].paint(), list_paint(commands, n - 1))
    }
}

/// Whether every one of `commands` can be carried out.
pub open spec fn all_valid(commands: Seq<DrawCommand>) -> bool {
    forall|i: int| 0 <= i < commands.len() ==> (#[trigger] commands[i]).valid()
}

pub struct Graphics {
    pixels: Vec<u32>,
    width: u64,
    height: u64,
    pitch: u64,
}

impl View for Graphics {
    type V = Screen;

    closed spec fn view(&self) -> Screen {
        Screen {
            width: self.width as int,
            height: self.height as int,
            pitch: self.pitch as int,
            pixels: self.pixels@,
        }
    }
}

impl Graphics {
    /// A black screen of the given size.
    pub fn new(width: u64, height: u64, pitch: u64) -> (r: Self)
        requires
            width * height <= usize::MAX,
        ensures
            r@.wf(),
            r@.width == width,
            r@.height == height,
            r@.pitch == pitch,
            forall|i: int| 0 <= i < r@.pixels.len() ==> r@.pixels[i] == 0,
    {
        let total: usize = if width == 0 || height == 0 {
            assert(width * height == 0) by (nonlinear_arith)
                requires
                    width == 0 || height == 0,
            ;
            0
        } else {
            assert(width <= width * height && height <= width * height) by (nonlinear_arith)
                requires
                    1 <= width,
                    1 <= height,
            ;
            (width as usize) * (height as usize)
        };
        let mut pixels: Vec<u32> = Vec::new();
        let mut i: usize = 0;
        while i < total
            invariant
                0 <= i <= total,
                pixels@.len() == i,
                forall|j: int| 0 <= j < i ==> pixels@[j] == 0,
            decreases total - i,
        {
            pixels.push(0);
            i = i + 1;
        }
        Graphics { pixels, width, height, pitch }
    }

    /// Place of pixel `(x, y)` in the row of pixels.
    fn index(&self, x: u64, y: u64) -> (r: usize)
        requires
            self@.wf(),
            self@.on(x as int, y as int),
        ensures
            r == y * self@.width + x,
            r < self@.pixels.len(),
    {
        let n: usize = self.pixels.len();
        proof {
            lemma_pixel_index(self.width as int, self.height as int, x as int, y as int, 0, 0);
            assert(0 <= y * self.width) by (nonlinear_arith)
                requires
                    0 <= y,
                    0 <= self.width,
            ;
        }
        (y * self.width + x) as usize
    }

    /// Gives every pixel the colour `color`.
    pub fn clear_screen(&mut self, color: u32)
        requires
            old(self)@.wf(),
        ensures
            final(self)@.drawn(old(self)@, |x: int, y: int| Some(color)),
    {
        let n: usize = self.pixels.len();
        let mut i: usize = 0;
        while i < n
            invariant
                0 <= i <= n,
                n == self.pixels@.len(),
                self.width == old(self).width,
                self.height == old(self).height,
                self.pitch == old(self).pitch,
                old(self)@.wf(),
                self.pixels@.len() == old(self).pixels@.len(),
                forall|j: int| 0 <= j < i ==> self.pixels@[j] == color,
            decreases n - i,
        {
            self.pixels[i] = color;
            i = i + 1;
        }
        proof {
            assert forall|x: int, y: int| old(self)@.on(x, y) implies #[trigger] self@.at(x, y)
                == color by {
                lemma_pixel_index(self.width as int, self.height as int, x, y, x, y);
            }
        }
    }

    /// Gives pixel `(x, y)` the colour `color`; a point off the screen is
    /// ignored.
    pub fn put_pixel(&mut self, x: u64, y: u64, color: u32)
        requires
            old(self)@.wf(),
        ensures
            final(self)@.drawn(
                old(self)@,
                |px: int, py: int|
                    if px == x && py == y {
                        Some(color)
                    } else {
                        None
                    },
            ),
    {
        if x >= self.width || y >= self.height {
            return ;
        }
        let offset: usize = self.index(x, y);
        self.pixels[offset] = color;
        proof {
            assert forall|px: int, py: int| old(self)@.on(px, py) implies #[trigger] self@.at(
                px,
                py,
            ) == (if px == x && py == y {
                color
            } else {
                old(self)@.at(px, py)
            }) by {
                lemma_pixel_index(
                    self.width as int,
                    self.height as int,
                    x as int,
                    y as int,
                    px,
                    py,
                );
                lemma_pixel_index(
                    self.width as int,
                    self.height as int,
                    px,
                    py,
                    x as int,
                    y as int,
                );
            }
        }
    }

    /// Gives pixel `(x, y)` the colour `color`, where the point may lie
    /// anywhere.
    pub fn put_pixel_safe(&mut self, x: i64, y: i64, color: u32)
        requires
            old(self)@.wf(),
        ensures
            final(self)@.drawn(
                old(self)@,
                |px: int, py: int|
                    if px == x && py == y {
                        Some(color)
                    } else {
                        None
                    },
            ),
    {
        if x >= 0 && y >= 0 && (x as u64) < self.width && (y as u64) < self.height {
            self.put_pixel(x as u64, y as u64, color);
        }
    }

    /// The colour of pixel `(x, y)`, if the point lies on the screen.
    pub fn get_pixel(&self, x: u64, y: u64) -> (r: Option<u32>)
        requires
            self@.wf(),
        ensures
            r == (if self@.on(x as int, y as int) {
                Some(self@.at(x as int, y as int))
            } else {
                None
            }),
    {
        if x >= self.width || y >= self.height {
            return None;
        }
        Some(self.pixels[self.index(x, y)])
    }

    /// Width and height of the screen.
    pub fn get_dimensions(&self) -> (r: (u64, u64))
        ensures
            r.0 == self@.width,
            r.1 == self@.height,
    {
        (self.width, self.height)
    }

    /// Fills the rectangle with corner `(x, y)` and the given size.
    pub fn fill_rect(&mut self, x: u64, y: u64, width: u64, height: u64, color: u32)
        requires
            old(self)@.wf(),
            x + width <= u64::MAX,
            y + height <= u64::MAX,
        ensures
            final(self)@.drawn(
                old(self)@,
                |px: int, py: int|
                    if in_box(px, py, x as int, y as int, width as int, height as int) {
                        Some(color)
                    } else {
                        None
                    },
            ),
    {
        let mut dy: u64 = 0;
        while dy < height
            invariant
                0 <= dy <= height,
                x + width <= u64::MAX,
                y + height <= u64::MAX,
                old(self)@.wf(),
                self@.drawn(
                    old(self)@,
                    |px: int, py: int|
                        if in_box(px, py, x as int, y as int, width as int, dy as int) {
                            Some(color)
                        } else {
                            None
                        },
                ),
            decreases height - dy,
        {
            let mut dx: u64 = 0;
            while dx < width
                invariant
                    0 <= dx <= width,
                    dy < height,
                    x + width <= u64::MAX,
                    y + height <= u64::MAX,
                    old(self)@.wf(),
                    self@.drawn(
                        old(self)@,
                        |px: int, py: int|
                            if in_box(px, py, x as int, y as int, width as int, dy as int) || (py
                                == y + dy && x <= px < x + dx) {
                                Some(color)
                            } else {
                                None
                            },
                    ),
                decreases width - dx,
            {
                let ghost mid = self@;
                self.put_pixel(x + dx, y + dy, color);
                dx = dx + 1;
                proof {
                    assert forall|px: int, py: int| old(self)@.on(px, py) implies #[trigger] self@.at(
                        px,
                        py,
                    ) == (if in_box(px, py, x as int, y as int, width as int, dy as int) || (py
                        == y + dy && x <= px < x + dx) {
                        color
                    } else {
                        old(self)@.at(px, py)
                    }) by {
                        assert(mid.on(px, py));
                        assert(mid.at(px, py) == mid.at(px, py));
                    }
                }
            }
            dy = dy + 1;
            proof {
                assert forall|px: int, py: int| old(self)@.on(px, py) implies #[trigger] self@.at(
                    px,
                    py,
                ) == (if in_box(px, py, x as int, y as int, width as int, dy as int) {
                    color
                } else {
                    old(self)@.at(px, py)
                }) by {}
            }
        }
    }

    /// Paints pixel `(x, y)` with `color`, if there is a colour and the
    /// point lies on the screen.
    fn paint_pixel(&mut self, x: i64, y: i64, color: Option<u32>)
        requires
            old(self)@.wf(),
        ensures
            final(self)@.drawn(
                old(self)@,
                |px: int, py: int|
                    if px == x && py == y {
                        color
                    } else {
                        None
                    },
            ),
    {
        match color {
            Some(c) => {
                self.put_pixel_safe(x, y, c);
            },
            None => {
                assert(self@.drawn(
                    old(self)@,
                    |px: int, py: int|
                        if px == x && py == y {
                            color
                        } else {
                            None
                        },
                ));
            },
        }
    }

    /// Draws the frame of the rectangle with corner `(x, y)` and the
    /// given size, `thickness` pixels wide on every side.
    pub fn draw_rect(
        &mut self,
        x: u64,
        y: u64,
        width: u64,
        height: u64,
        color: u32,
        thickness: u64,
    )
        requires
            old(self)@.wf(),
            x + width <= u64::MAX,
            y + height <= u64::MAX,
            x + thickness <= u64::MAX,
            y + thickness <= u64::MAX,
        ensures
            final(self)@.drawn(
                old(self)@,
                |px: int, py: int|
                    if on_frame(
                        px,
                        py,
                        x as int,
                        y as int,
                        width as int,
                        height as int,
                        thickness as int,
                    ) {
                        Some(color)
                    } else {
                        None
                    },
            ),
    {
        let mut i: u64 = 0;
        while i < width
            invariant
                0 <= i <= width,
                x + width <= u64::MAX,
                y + height <= u64::MAX,
                x + thickness <= u64::MAX,
                y + thickness <= u64::MAX,
                old(self)@.wf(),
                self@.drawn(
                    old(self)@,
                    |px: int, py: int|
                        if x <= px < x + i && (y <= py < y + thickness || (y + height - thickness
                            <= py < y + height)) {
                            Some(color)
                        } else {
                            None
                        },
                ),
            decreases width - i,
        {
            let mut t: u64 = 0;
            while t < thickness
                invariant
                    0 <= t <= thickness,
                    i < width,
                    x + width <= u64::MAX,
                    y + height <= u64::MAX,
                    x + thickness <= u64::MAX,
                    y + thickness <= u64::MAX,
                    old(self)@.wf(),
                    self@.drawn(
                        old(self)@,
                        |px: int, py: int|
                            if (x <= px < x + i && (y <= py < y + thickness || (y + height
                                - thickness <= py < y + height))) || (px == x + i && (y <= py < y
                                + t || (y + height - t <= py < y + height))) {
                                Some(color)
                            } else {
                                None
                            },
                    ),
                decreases thickness - t,
            {
                let ghost start = self@;
                if y + t < self.height {
                    self.put_pixel(x + i, y + t, color);
                }
                let ghost mid = self@;
                if y + height > t && y + height - t - 1 < self.height {
                    self.put_pixel(x + i, y + height - t - 1, color);
                }
                t = t + 1;
                proof {
                    assert forall|px: int, py: int| old(self)@.on(px, py) implies #[trigger] self@.at(
                        px,
                        py,
                    ) == (if (x <= px < x + i && (y <= py < y + thickness || (y + height
                        - thickness <= py < y + height))) || (px == x + i && (y <= py < y + t || (y
                        + height - t <= py < y + height))) {
                        color
                    } else {
                        old(self)@.at(px, py)
                    }) by {
                        assert(start.on(px, py) && mid.on(px, py));
                        assert(start.at(px, py) == start.at(px, py));
                        assert(mid.at(px, py) == mid.at(px, py));
                    }
                }
            }
            i = i + 1;
        }
        let ghost top = self@;
        let mut j: u64 = 0;
        while j < height
            invariant
                0 <= j <= height,
                x + width <= u64::MAX,
                y + height <= u64::MAX,
                x + thickness <= u64::MAX,
                y + thickness <= u64::MAX,
                old(self)@.wf(),
                self@.drawn(
                    old(self)@,
                    |px: int, py: int|
                        if (x <= px < x + width && (y <= py < y + thickness || (y + height
                            - thickness <= py < y + height))) || (y <= py < y + j && (x <= px < x
                            + thickness || (x + width - thickness <= px < x + width))) {
                            Some(color)
                        } else {
                            None
                        },
                ),
            decreases height - j,
        {
            let mut t: u64 = 0;
            while t < thickness
                invariant
                    0 <= t <= thickness,
                    j < height,
                    x + width <= u64::MAX,
                    y + height <= u64::MAX,
                    x + thickness <= u64::MAX,
                    y + thickness <= u64::MAX,
                    old(self)@.wf(),
                    self@.drawn(
                        old(self)@,
                        |px: int, py: int|
                            if (x <= px < x + width && (y <= py < y + thickness || (y + height
                                - thickness <= py < y + height))) || (y <= py < y + j && (x <= px
                                < x + thickness || (x + width - thickness <= px < x + width))) || (
                            py == y + j && (x <= px < x + t || (x + width - t <= px < x + width))) {
                                Some(color)
                            } else {
                                None
                            },
                    ),
                decreases thickness - t,
            {
                let ghost start = self@;
                if x + t < self.width {
                    self.put_pixel(x + t, y + j, color);
                }
                let ghost mid = self@;
                if x + width > t && x + width - t - 1 < self.width {
                    self.put_pixel(x + width - t - 1, y + j, color);
                }
                t = t + 1;
                proof {
                    assert forall|px: int, py: int| old(self)@.on(px, py) implies #[trigger] self@.at(
                        px,
                        py,
                    ) == (if (x <= px < x + width && (y <= py < y + thickness || (y + height
                        - thickness <= py < y + height))) || (y <= py < y + j && (x <= px < x
                        + thickness || (x + width - thickness <= px < x + width))) || (py == y + j
                        && (x <= px < x + t || (x + width - t <= px < x + width))) {
                        color
                    } else {
                        old(self)@.at(px, py)
                    }) by {
                        assert(start.on(px, py) && mid.on(px, py));
                        assert(start.at(px, py) == start.at(px, py));
                        assert(mid.at(px, py) == mid.at(px, py));
                    }
                }
            }
            j = j + 1;
        }
    }

    /// Draws a line from `(x0, y0)` to `(x1, y1)`, both ends included,
    /// stepping from pixel to neighbouring pixel.
    pub fn draw_line(&mut self, x0: i64, y0: i64, x1: i64, y1: i64, color: u32)
        requires
            old(self)@.wf(),
            -DRAW_LIMIT <= x0 <= DRAW_LIMIT,
            -DRAW_LIMIT <= y0 <= DRAW_LIMIT,
            -DRAW_LIMIT <= x1 <= DRAW_LIMIT,
            -DRAW_LIMIT <= y1 <= DRAW_LIMIT,
        ensures
            final(self)@.drawn(
                old(self)@,
                |px: int, py: int|
                    if LineWalk::start(x0 as int, y0 as int, x1 as int, y1 as int).hits(px, py) {
                        Some(color)
                    } else {
                        None
                    },
            ),
    {
        let dx: i64 = if x1 >= x0 {
            x1 - x0
        } else {
            x0 - x1
        };
        let dy: i64 = if y1 >= y0 {
            y1 - y0
        } else {
            y0 - y1
        };
        let sx: i64 = if x0 < x1 {
            1
        } else {
            -1
        };
        let sy: i64 = if y0 < y1 {
            1
        } else {
            -1
        };
        let mut err: i64 = dx - dy;
        let mut x: i64 = x0;
        let mut y: i64 = y0;
        let ghost first = LineWalk::start(x0 as int, y0 as int, x1 as int, y1 as int);
        let ghost mut walk = first;
        let ghost mut visited: Set<(int, int)> = Set::empty();
        proof {
            lemma_line_start(x0 as int, y0 as int, x1 as int, y1 as int);
        }
        loop
            invariant
                old(self)@.wf(),
                first == LineWalk::start(x0 as int, y0 as int, x1 as int, y1 as int),
                walk.inv(),
                walk.x == x,
                walk.y == y,
                walk.err == err,
                walk.x1 == x1,
                walk.y1 == y1,
                walk.dx == dx,
                walk.dy == dy,
                walk.sx == sx,
                walk.sy == sy,
                0 <= dx <= 2 * DRAW_LIMIT,
                0 <= dy <= 2 * DRAW_LIMIT,
                forall|px: int, py: int|
                    #[trigger] first.hits(px, py) == (visited.contains((px, py)) || walk.hits(
                        px,
                        py,
                    )),
                self@.drawn(
                    old(self)@,
                    |px: int, py: int|
                        if visited.contains((px, py)) {
                            Some(color)
                        } else {
                            None
                        },
                ),
            ensures
                self@.drawn(
                    old(self)@,
                    |px: int, py: int|
                        if first.hits(px, py) {
                            Some(color)
                        } else {
                            None
                        },
                ),
            decreases walk.rx() + walk.ry(),
        {
            let ghost mid = self@;
            self.put_pixel_safe(x, y, color);
            proof {
                let ghost seen = visited;
                visited = visited.insert((x as int, y as int));
                lemma_paint_step(
                    old(self)@,
                    mid,
                    self@,
                    |px: int, py: int| Some(color),
                    |px: int, py: int| seen.contains((px, py)),
                    |px: int, py: int| visited.contains((px, py)),
                    x as int,
                    y as int,
                );
                assert forall|px: int, py: int| old(self)@.on(px, py) implies #[trigger] self@.at(
                    px,
                    py,
                ) == (if visited.contains((px, py)) {
                    color
                } else {
                    old(self)@.at(px, py)
                }) by {}
            }
            if x == x1 && y == y1 {
                proof {
                    assert forall|px: int, py: int| #[trigger]
                        first.hits(px, py) == visited.contains((px, py)) by {
                        assert(walk.hits(px, py) == (px == x && py == y));
                    }
                    assert forall|px: int, py: int| old(self)@.on(px, py) implies #[trigger] self@.at(
                        px,
                        py,
                    ) == (if first.hits(px, py) {
                        color
                    } else {
                        old(self)@.at(px, py)
                    }) by {}
                }
                break ;
            }
            proof {
                lemma_line_step(walk);
                let rx = walk.rx();
                let ry = walk.ry();
                assert(0 <= ry * dx <= dy * dx && 0 <= rx * dy <= dx * dy && dx * dy <= 4
                    * DRAW_LIMIT * DRAW_LIMIT && dy * dx == dx * dy) by (nonlinear_arith)
                    requires
                        0 <= rx <= dx,
                        0 <= ry <= dy,
                        dx <= 2 * DRAW_LIMIT,
                        dy <= 2 * DRAW_LIMIT,
                        DRAW_LIMIT == 0x2000_0000,
                ;
                assert forall|px: int, py: int| #[trigger]
                    first.hits(px, py) == (visited.contains((px, py)) || walk.next().hits(
                        px,
                        py,
                    )) by {
                    assert(walk.hits(px, py) == ((px == x && py == y) || walk.next().hits(px, py)));
                }
            }
            let e2: i64 = 2 * err;
            if e2 > -dy {
                err = err - dy;
                x = x + sx;
            }
            if e2 < dx {
                err = err + dx;
                y = y + sy;
            }
            proof {
                walk = walk.next();
            }
        }
    }

    /// Draws the circle around `(center_x, center_y)` with the given
    /// radius, eight points at a time.
    pub fn draw_circle(&mut self, center_x: i64, center_y: i64, radius: i64, color: u32)
        requires
            old(self)@.wf(),
            -DRAW_LIMIT <= center_x <= DRAW_LIMIT,
            -DRAW_LIMIT <= center_y <= DRAW_LIMIT,
            -DRAW_LIMIT <= radius <= DRAW_LIMIT,
        ensures
            final(self)@.drawn(
                old(self)@,
                |px: int, py: int|
                    if circle_hits(
                        px,
                        py,
                        center_x as int,
                        center_y as int,
                        0,
                        radius as int,
                        1 - radius,
                    ) {
                        Some(color)
                    } else {
                        None
                    },
            ),
    {
        let mut x: i64 = 0;
        let mut y: i64 = radius;
        let mut d: i64 = 1 - radius;
        let ghost mut visited: Set<(int, int)> = Set::empty();
        while x <= y
            invariant
                old(self)@.wf(),
                -DRAW_LIMIT <= center_x <= DRAW_LIMIT,
                -DRAW_LIMIT <= center_y <= DRAW_LIMIT,
                -DRAW_LIMIT <= radius <= DRAW_LIMIT,
                0 <= x,
                y <= radius,
                -2 * radius - 1 <= d <= 2 * radius + 3 + 5 * x || radius < 0,
                forall|px: int, py: int|
                    #[trigger] circle_hits(
                        px,
                        py,
                        center_x as int,
                        center_y as int,
                        0,
                        radius as int,
                        1 - radius,
                    ) == (visited.contains((px, py)) || circle_hits(
                        px,
                        py,
                        center_x as int,
                        center_y as int,
                        x as int,
                        y as int,
                        d as int,
                    )),
                self@.drawn(
                    old(self)@,
                    |px: int, py: int|
                        if visited.contains((px, py)) {
                            Some(color)
                        } else {
                            None
                        },
                ),
            decreases y - x + 2,
        {
            let ghost seen = visited;
            self.touch(center_x + x, center_y + y, color, Ghost(old(self)@), Ghost(visited));
            proof {
                visited = visited.insert((center_x + x, center_y + y));
            }
            self.touch(center_x - x, center_y + y, color, Ghost(old(self)@), Ghost(visited));
            proof {
                visited = visited.insert((center_x - x, center_y + y));
            }
            self.touch(center_x + x, center_y - y, color, Ghost(old(self)@), Ghost(visited));
            proof {
                visited = visited.insert((center_x + x, center_y - y));
            }
            self.touch(center_x - x, center_y - y, color, Ghost(old(self)@), Ghost(visited));
            proof {
                visited = visited.insert((center_x - x, center_y - y));
            }
            self.touch(center_x + y, center_y + x, color, Ghost(old(self)@), Ghost(visited));
            proof {
                visited = visited.insert((center_x + y, center_y + x));
            }
            self.touch(center_x - y, center_y + x, color, Ghost(old(self)@), Ghost(visited));
            proof {
                visited = visited.insert((center_x - y, center_y + x));
            }
            self.touch(center_x + y, center_y - x, color, Ghost(old(self)@), Ghost(visited));
            proof {
                visited = visited.insert((center_x + y, center_y - x));
            }
            self.touch(center_x - y, center_y - x, color, Ghost(old(self)@), Ghost(visited));
            proof {
                visited = visited.insert((center_x - y, center_y - x));
                assert forall|px: int, py: int|
                    #[trigger] visited.contains((px, py)) == (seen.contains((px, py)) || on_octants(
                        px,
                        py,
                        center_x as int,
                        center_y as int,
                        x as int,
                        y as int,
                    )) by {}
            }
            if d < 0 {
                d = d + 2 * x + 3;
            } else {
                d = d + 2 * (x - y) + 5;
                y = y - 1;
            }
            x = x + 1;
        }
        proof {
            assert forall|px: int, py: int| old(self)@.on(px, py) implies #[trigger] self@.at(px, py)
                == (if circle_hits(
                px,
                py,
                center_x as int,
                center_y as int,
                0,
                radius as int,
                1 - radius,
            ) {
                color
            } else {
                old(self)@.at(px, py)
            }) by {}
        }
    }

    /// Paints one more pixel of a figure in one colour: `first` is the
    /// screen before the figure was begun, `visited` the pixels painted
    /// so far.
    fn touch(
        &mut self,
        x: i64,
        y: i64,
        color: u32,
        Ghost(first): Ghost<Screen>,
        Ghost(visited): Ghost<Set<(int, int)>>,
    )
        requires
            old(self)@.wf(),
            first.wf(),
            old(self)@.drawn(
                first,
                |px: int, py: int|
                    if visited.contains((px, py)) {
                        Some(color)
                    } else {
                        None
                    },
            ),
        ensures
            final(self)@.drawn(
                first,
                |px: int, py: int|
                    if visited.insert((x as int, y as int)).contains((px, py)) {
                        Some(color)
                    } else {
                        None
                    },
            ),
    {
        let ghost mid = self@;
        self.put_pixel_safe(x, y, color);
        proof {
            lemma_paint_step(
                first,
                mid,
                self@,
                |px: int, py: int| Some(color),
                |px: int, py: int| visited.contains((px, py)),
                |px: int, py: int| visited.insert((x as int, y as int)).contains((px, py)),
                x as int,
                y as int,
            );
            assert forall|px: int, py: int| first.on(px, py) implies #[trigger] self@.at(px, py) == (
            if visited.insert((x as int, y as int)).contains((px, py)) {
                color
            } else {
                first.at(px, py)
            }) by {}
        }
    }

    /// Draws the mouse cursor, an arrow of 11 by 19 pixels, with its tip
    /// at `(x, y)`: the outline in `color`, the inside black.
    pub fn draw_cursor(&mut self, x: i64, y: i64, color: u32)
        requires
            old(self)@.wf(),
            x + CURSOR_WIDTH <= i64::MAX,
            y + CURSOR_HEIGHT <= i64::MAX,
        ensures
            final(self)@.drawn(
                old(self)@,
                |px: int, py: int| cursor_paint(px, py, x as int, y as int, color),
            ),
    {
        let outline: [u16; 19] = [
            0x001,
            0x003,
            0x005,
            0x009,
            0x011,
            0x021,
            0x041,
            0x081,
            0x101,
            0x201,
            0x401,
            0x781,
            0x091,
            0x129,
            0x125,
            0x123,
            0x241,
            0x240,
            0x180,
        ];
        let inside: [u16; 19] = [
            0x000,
            0x000,
            0x002,
            0x006,
            0x00E,
            0x01E,
            0x03E,
            0x07E,
            0x0FE,
            0x1FE,
            0x3FE,
            0x07E,
            0x06E,
            0x0C6,
            0x0C2,
            0x0C0,
            0x180,
            0x180,
            0x000,
        ];
        assert(outline@ =~= cursor_outline());
        assert(inside@ =~= cursor_inside());
        let ghost paint = |px: int, py: int| cursor_paint(px, py, x as int, y as int, color);
        let mut row: usize = 0;
        while row < CURSOR_HEIGHT
            invariant
                0 <= row <= CURSOR_HEIGHT,
                x + CURSOR_WIDTH <= i64::MAX,
                y + CURSOR_HEIGHT <= i64::MAX,
                outline@ == cursor_outline(),
                inside@ == cursor_inside(),
                paint == (|px: int, py: int| cursor_paint(px, py, x as int, y as int, color)),
                old(self)@.wf(),
                self@.drawn(
                    old(self)@,
                    |px: int, py: int|
                        if passed(px, py, x as int, y as int, CURSOR_WIDTH as int, row as int, 0) {
                            paint(px, py)
                        } else {
                            None
                        },
                ),
            decreases CURSOR_HEIGHT - row,
        {
            let mut col: usize = 0;
            while col < CURSOR_WIDTH
                invariant
                    0 <= col <= CURSOR_WIDTH,
                    row < CURSOR_HEIGHT,
                    x + CURSOR_WIDTH <= i64::MAX,
                    y + CURSOR_HEIGHT <= i64::MAX,
                    outline@ == cursor_outline(),
                    inside@ == cursor_inside(),
                    paint == (|px: int, py: int| cursor_paint(px, py, x as int, y as int, color)),
                    old(self)@.wf(),
                    self@.drawn(
                        old(self)@,
                        |px: int, py: int|
                            if passed(
                                px,
                                py,
                                x as int,
                                y as int,
                                CURSOR_WIDTH as int,
                                row as int,
                                col as int,
                            ) {
                                paint(px, py)
                            } else {
                                None
                            },
                    ),
                decreases CURSOR_WIDTH - col,
            {
                let px: i64 = x + col as i64;
                let py: i64 = y + row as i64;
                let value: Option<u32> = if (outline[row] >> (col as u16)) & 1 == 1 {
                    Some(color)
                } else if (inside[row] >> (col as u16)) & 1 == 1 {
                    Some(CURSOR_FILL)
                } else {
                    None
                };
                let ghost mid = self@;
                self.paint_pixel(px, py, value);
                proof {
                    assert(value == paint(px as int, py as int));
                    lemma_paint_step(
                        old(self)@,
                        mid,
                        self@,
                        paint,
                        |a: int, b: int|
                            passed(
                                a,
                                b,
                                x as int,
                                y as int,
                                CURSOR_WIDTH as int,
                                row as int,
                                col as int,
                            ),
                        |a: int, b: int|
                            passed(
                                a,
                                b,
                                x as int,
                                y as int,
                                CURSOR_WIDTH as int,
                                row as int,
                                col + 1,
                            ),
                        px as int,
                        py as int,
                    );
                }
                col = col + 1;
            }
            row = row + 1;
        }
        proof {
            assert forall|px: int, py: int| old(self)@.on(px, py) implies #[trigger] self@.at(px, py)
                == (match cursor_paint(px, py, x as int, y as int, color) {
                Some(c) => c,
                None => old(self)@.at(px, py),
            }) by {}
        }
    }

    /// Paints the box that the mouse cursor at `(x, y)` covers in
    /// `bg_color`.
    pub fn clear_cursor(&mut self, x: i64, y: i64, bg_color: u32)
        requires
            old(self)@.wf(),
            x + CURSOR_WIDTH <= i64::MAX,
            y + CURSOR_HEIGHT <= i64::MAX,
        ensures
            final(self)@.drawn(
                old(self)@,
                |px: int, py: int|
                    if in_box(px, py, x as int, y as int, CURSOR_WIDTH as int, CURSOR_HEIGHT as int) {
                        Some(bg_color)
                    } else {
                        None
                    },
            ),
    {
        let ghost paint = |px: int, py: int| Some(bg_color);
        let mut row: usize = 0;
        while row < CURSOR_HEIGHT
            invariant
                0 <= row <= CURSOR_HEIGHT,
                x + CURSOR_WIDTH <= i64::MAX,
                y + CURSOR_HEIGHT <= i64::MAX,
                paint == (|px: int, py: int| Some(bg_color)),
                old(self)@.wf(),
                self@.drawn(
                    old(self)@,
                    |px: int, py: int|
                        if passed(px, py, x as int, y as int, CURSOR_WIDTH as int, row as int, 0) {
                            paint(px, py)
                        } else {
                            None
                        },
                ),
            decreases CURSOR_HEIGHT - row,
        {
            let mut col: usize = 0;
            while col < CURSOR_WIDTH
                invariant
                    0 <= col <= CURSOR_WIDTH,
                    row < CURSOR_HEIGHT,
                    x + CURSOR_WIDTH <= i64::MAX,
                    y + CURSOR_HEIGHT <= i64::MAX,
                    paint == (|px: int, py: int| Some(bg_color)),
                    old(self)@.wf(),
                    self@.drawn(
                        old(self)@,
                        |px: int, py: int|
                            if passed(
                                px,
                                py,
                                x as int,
                                y as int,
                                CURSOR_WIDTH as int,
                                row as int,
                                col as int,
                            ) {
                                paint(px, py)
                            } else {
                                None
                            },
                    ),
                decreases CURSOR_WIDTH - col,
            {
                let px: i64 = x + col as i64;
                let py: i64 = y + row as i64;
                let ghost mid = self@;
                self.paint_pixel(px, py, Some(bg_color));
                proof {
                    lemma_paint_step(
                        old(self)@,
                        mid,
                        self@,
                        paint,
                        |a: int, b: int|
                            passed(
                                a,
                                b,
                                x as int,
                                y as int,
                                CURSOR_WIDTH as int,
                                row as int,
                                col as int,
                            ),
                        |a: int, b: int|
                            passed(
                                a,
                                b,
                                x as int,
                                y as int,
                                CURSOR_WIDTH as int,
                                row as int,
                                col + 1,
                            ),
                        px as int,
                        py as int,
                    );
                }
                col = col + 1;
            }
            row = row + 1;
        }
        proof {
            assert forall|px: int, py: int| old(self)@.on(px, py) implies #[trigger] self@.at(px, py)
                == (if in_box(px, py, x as int, y as int, CURSOR_WIDTH as int, CURSOR_HEIGHT as int) {
                bg_color
            } else {
                old(self)@.at(px, py)
            }) by {}
        }
    }

    /// The pixels that the mouse cursor at `(x, y)` would cover, row by
    /// row; zero where the cursor reaches beyond the screen.
    pub fn save_cursor_area(&self, x: i64, y: i64) -> (r: [[u32; 11]; 19])
        requires
            self@.wf(),
            x + CURSOR_WIDTH <= i64::MAX,
            y + CURSOR_HEIGHT <= i64::MAX,
        ensures
            forall|row: int, col: int|
                0 <= row < CURSOR_HEIGHT && 0 <= col < CURSOR_WIDTH ==> #[trigger] r[row][col] == (
                if self@.on(x + col, y + row) {
                    self@.at(x + col, y + row)
                } else {
                    0
                }),
    {
        let mut saved: [[u32; 11]; 19] = [[0u32; 11]; 19];
        let mut row: usize = 0;
        while row < CURSOR_HEIGHT
            invariant
                0 <= row <= CURSOR_HEIGHT,
                self@.wf(),
                x + CURSOR_WIDTH <= i64::MAX,
                y + CURSOR_HEIGHT <= i64::MAX,
                forall|r2: int, c2: int|
                    0 <= r2 < row && 0 <= c2 < CURSOR_WIDTH ==> #[trigger] saved[r2][c2] == (
                    if self@.on(x + c2, y + r2) {
                        self@.at(x + c2, y + r2)
                    } else {
                        0
                    }),
            decreases CURSOR_HEIGHT - row,
        {
            let mut line: [u32; 11] = [0u32; 11];
            let mut col: usize = 0;
            while col < CURSOR_WIDTH
                invariant
                    0 <= col <= CURSOR_WIDTH,
                    row < CURSOR_HEIGHT,
                    self@.wf(),
                    x + CURSOR_WIDTH <= i64::MAX,
                    y + CURSOR_HEIGHT <= i64::MAX,
                    forall|c2: int|
                        0 <= c2 < col ==> #[trigger] line[c2] == (if self@.on(x + c2, y + row) {
                            self@.at(x + c2, y + row)
                        } else {
                            0
                        }),
                decreases CURSOR_WIDTH - col,
            {
                let px: i64 = x + col as i64;
                let py: i64 = y + row as i64;
                if px >= 0 && py >= 0 {
                    match self.get_pixel(px as u64, py as u64) {
                        Some(c) => {
                            line[col] = c;
                        },
                        None => {
                            line[col] = 0;
                        },
                    }
                } else {
                    line[col] = 0;
                }
                col = col + 1;
            }
            saved[row] = line;
            row = row + 1;
        }
        saved
    }

    /// Puts back the pixels that the mouse cursor at `(x, y)` covered.
    pub fn restore_cursor_area(&mut self, x: i64, y: i64, saved: &[[u32; 11]; 19])
        requires
            old(self)@.wf(),
            x + CURSOR_WIDTH <= i64::MAX,
            y + CURSOR_HEIGHT <= i64::MAX,
        ensures
            final(self)@.drawn(
                old(self)@,
                |px: int, py: int|
                    if in_box(px, py, x as int, y as int, CURSOR_WIDTH as int, CURSOR_HEIGHT as int) {
                        Some(saved[py - y][px - x])
                    } else {
                        None
                    },
            ),
    {
        let ghost paint = |px: int, py: int|
            if in_box(px, py, x as int, y as int, CURSOR_WIDTH as int, CURSOR_HEIGHT as int) {
                Some(saved[py - y][px - x])
            } else {
                None
            };
        let mut row: usize = 0;
        while row < CURSOR_HEIGHT
            invariant
                0 <= row <= CURSOR_HEIGHT,
                x + CURSOR_WIDTH <= i64::MAX,
                y + CURSOR_HEIGHT <= i64::MAX,
                paint == (|px: int, py: int|
                    if in_box(px, py, x as int, y as int, CURSOR_WIDTH as int, CURSOR_HEIGHT as int) {
                        Some(saved[py - y][px - x])
                    } else {
                        None
                    }),
                old(self)@.wf(),
                self@.drawn(
                    old(self)@,
                    |px: int, py: int|
                        if passed(px, py, x as int, y as int, CURSOR_WIDTH as int, row as int, 0) {
                            paint(px, py)
                        } else {
                            None
                        },
                ),
            decreases CURSOR_HEIGHT - row,
        {
            let mut col: usize = 0;
            while col < CURSOR_WIDTH
                invariant
                    0 <= col <= CURSOR_WIDTH,
                    row < CURSOR_HEIGHT,
                    x + CURSOR_WIDTH <= i64::MAX,
                    y + CURSOR_HEIGHT <= i64::MAX,
                    paint == (|px: int, py: int|
                        if in_box(
                            px,
                            py,
                            x as int,
                            y as int,
                            CURSOR_WIDTH as int,
                            CURSOR_HEIGHT as int,
                        ) {
                            Some(saved[py - y][px - x])
                        } else {
                            None
                        }),
                    old(self)@.wf(),
                    self@.drawn(
                        old(self)@,
                        |px: int, py: int|
                            if passed(
                                px,
                                py,
                                x as int,
                                y as int,
                                CURSOR_WIDTH as int,
                                row as int,
                                col as int,
                            ) {
                                paint(px, py)
                            } else {
                                None
                            },
                    ),
                decreases CURSOR_WIDTH - col,
            {
                let px: i64 = x + col as i64;
                let py: i64 = y + row as i64;
                let ghost mid = self@;
                self.paint_pixel(px, py, Some(saved[row][col]));
                proof {
                    lemma_paint_step(
                        old(self)@,
                        mid,
                        self@,
                        paint,
                        |a: int, b: int|
                            passed(
                                a,
                                b,
                                x as int,
                                y as int,
                                CURSOR_WIDTH as int,
                                row as int,
                                col as int,
                            ),
                        |a: int, b: int|
                            passed(
                                a,
                                b,
                                x as int,
                                y as int,
                                CURSOR_WIDTH as int,
                                row as int,
                                col + 1,
                            ),
                        px as int,
                        py as int,
                    );
                }
                col = col + 1;
            }
            row = row + 1;
        }
        proof {
            assert forall|px: int, py: int| old(self)@.on(px, py) implies #[trigger] self@.at(px, py)
                == (match paint(px, py) {
                Some(c) => c,
                None => old(self)@.at(px, py),
            }) by {}
        }
    }
}

} // verus!
