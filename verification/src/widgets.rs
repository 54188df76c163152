//! Buttons and windows: where they are and whether a click hits them.

use vstd::prelude::*;
use vstd::string::*;
use crate::colors::{dark_theme, ui, WHITE};
use crate::display_list::run;
use crate::graphics::{DrawCommand, Graphics, all_valid, list_paint};

verus! {

/// Height of the title bar of a window.
pub const TITLEBAR_HEIGHT: u64 = 30;

/// Side of the square buttons in a title bar.
pub const CONTROL_SIZE: u64 = 20;

/// No coordinate and no size on the screen is larger than this, and no
/// text is longer.
pub const COORD_LIMIT: u64 = 0x0800_0000;

/// Colour of the shadow of a window.
pub const SHADOW: u32 = 0x3000_0000;

/// A place and a size: x, y, width, height.
pub type Rect = (u64, u64, u64, u64);

/// Whether a window of this place and size can be managed: everything is
/// within the coordinate limit, and the title bar is wide enough for its
/// three buttons.
pub open spec fn manageable_rect(r: Rect) -> bool {
    r.0 <= COORD_LIMIT && r.1 <= COORD_LIMIT && 75 <= r.2 <= COORD_LIMIT && r.3 <= COORD_LIMIT
}

/// Whether `text` is short enough to be placed on the screen.
pub open spec fn text_fits(text: &str) -> bool {
    text@.len() <= COORD_LIMIT && text.spec_bytes().len() <= COORD_LIMIT
}

/// Whether a window can be managed and drawn: its place and size are
/// manageable and its title fits.
pub open spec fn manageable(w: Window) -> bool {
    manageable_rect((w.x, w.y, w.width, w.height)) && text_fits(w.title)
}

/// Whether `text` is short enough to be placed on the screen.
pub fn fits(text: &str) -> (r: bool)
    ensures
        r == text_fits(text),
{
    text.unicode_len() as u64 <= COORD_LIMIT && text.as_bytes().len() as u64 <= COORD_LIMIT
}

/// Whether `window` can be managed and drawn.
pub fn is_manageable(window: &Window) -> (r: bool)
    ensures
        r == manageable(*window),
{
    window.x <= COORD_LIMIT && window.y <= COORD_LIMIT && 75 <= window.width && window.width
        <= COORD_LIMIT && window.height <= COORD_LIMIT && fits(window.title)
}

/// `a - b`, or zero where `b` is the larger.
pub open spec fn minus_or_zero(a: int, b: int) -> int {
    if a >= b {
        a - b
    } else {
        0
    }
}

/// The steps that draw the close button of `w`: a red square and a white
/// cross.
pub open spec fn close_button_commands(w: Window) -> Seq<DrawCommand> {
    let bx = (w.x + w.width - 25) as u64;
    let by = (w.y + 5) as u64;
    seq![
        DrawCommand::FillRect { x: bx, y: by, width: 20, height: 20, color: dark_theme::ERROR },
        DrawCommand::Line {
            x0: (bx + 5) as i64,
            y0: (by + 5) as i64,
            x1: (bx + 15) as i64,
            y1: (by + 15) as i64,
            color: WHITE,
        },
        DrawCommand::Line {
            x0: (bx + 15) as i64,
            y0: (by + 5) as i64,
            x1: (bx + 5) as i64,
            y1: (by + 15) as i64,
            color: WHITE,
        },
    ]
}

/// The steps that draw the body of `w`: shadow, background, title bar in
/// `titlebar_color`, border, and the title in `title_color`.
pub open spec fn body_commands(w: Window, titlebar_color: u32, title_color: u32) -> Seq<DrawCommand> {
    seq![
        DrawCommand::FillRect {
            x: (w.x + 3) as u64,
            y: (w.y + 3) as u64,
            width: w.width,
            height: w.height,
            color: SHADOW,
        },
        DrawCommand::FillRect { x: w.x, y: w.y, width: w.width, height: w.height, color: w.bg_color },
        DrawCommand::FillRect {
            x: w.x,
            y: w.y,
            width: w.width,
            height: TITLEBAR_HEIGHT,
            color: titlebar_color,
        },
        DrawCommand::Frame {
            x: w.x,
            y: w.y,
            width: w.width,
            height: w.height,
            color: dark_theme::BORDER,
            thickness: 1,
        },
        DrawCommand::Text {
            x: (w.x + 10) as u64,
            y: (w.y + 11) as u64,
            text: w.title,
            color: title_color,
        },
    ]
}

/// The steps that draw the close button of `window`.
pub fn close_button_list(window: &Window) -> (r: Vec<DrawCommand>)
    requires
        manageable(*window),
    ensures
        r@ == close_button_commands(*window),
        all_valid(r@),
{
    let button_x: u64 = window.x + window.width - 25;
    let button_y: u64 = window.y + 5;
    let button_size: u64 = 20;
    let center_x: u64 = button_x + button_size / 2;
    let center_y: u64 = button_y + button_size / 2;
    let offset: u64 = 5;
    let mut out: Vec<DrawCommand> = Vec::new();
    out.push(
        DrawCommand::FillRect {
            x: button_x,
            y: button_y,
            width: button_size,
            height: button_size,
            color: dark_theme::ERROR,
        },
    );
    out.push(
        DrawCommand::Line {
            x0: (center_x - offset) as i64,
            y0: (center_y - offset) as i64,
            x1: (center_x + offset) as i64,
            y1: (center_y + offset) as i64,
            color: WHITE,
        },
    );
    out.push(
        DrawCommand::Line {
            x0: (center_x + offset) as i64,
            y0: (center_y - offset) as i64,
            x1: (center_x - offset) as i64,
            y1: (center_y + offset) as i64,
            color: WHITE,
        },
    );
    assert(out@ =~= close_button_commands(*window));
    out
}

/// The steps that draw the body of `window`.
pub fn body_list(window: &Window, titlebar_color: u32, title_color: u32) -> (r: Vec<DrawCommand>)
    requires
        manageable(*window),
    ensures
        r@ == body_commands(*window, titlebar_color, title_color),
        all_valid(r@),
{
    let mut out: Vec<DrawCommand> = Vec::new();
    out.push(
        DrawCommand::FillRect {
            x: window.x + 3,
            y: window.y + 3,
            width: window.width,
            height: window.height,
            color: SHADOW,
        },
    );
    out.push(
        DrawCommand::FillRect {
            x: window.x,
            y: window.y,
            width: window.width,
            height: window.height,
            color: window.bg_color,
        },
    );
    out.push(
        DrawCommand::FillRect {
            x: window.x,
            y: window.y,
            width: window.width,
            height: TITLEBAR_HEIGHT,
            color: titlebar_color,
        },
    );
    out.push(
        DrawCommand::Frame {
            x: window.x,
            y: window.y,
            width: window.width,
            height: window.height,
            color: dark_theme::BORDER,
            thickness: 1,
        },
    );
    out.push(
        DrawCommand::Text {
            x: window.x + 10,
            y: window.y + 11,
            text: window.title,
            color: title_color,
        },
    );
    assert(out@ =~= body_commands(*window, titlebar_color, title_color));
    out
}

/// Appends the steps of `more` to `list`.
pub fn append_commands(list: &mut Vec<DrawCommand>, more: &Vec<DrawCommand>)
    ensures
        final(list)@ == old(list)@ + more@,
        all_valid(old(list)@) && all_valid(more@) ==> all_valid(final(list)@),
{
    let mut i: usize = 0;
    while i < more.len()
        invariant
            0 <= i <= more.len(),
            list@ == old(list)@ + more@.take(i as int),
        decreases more.len() - i,
    {
        list.push(more[i]);
        proof {
            assert(old(list)@ + more@.take(i + 1) =~= (old(list)@ + more@.take(i as int)).push(
                more@[i as int],
            ));
        }
        i = i + 1;
    }
    proof {
        assert(more@.take(more@.len() as int) =~= more@);
        if all_valid(old(list)@) && all_valid(more@) {
            assert forall|k: int| 0 <= k < list@.len() implies (#[trigger] list@[k]).valid() by {
                if k < old(list)@.len() {
                    assert(list@[k] == old(list)@[k]);
                } else {
                    assert(list@[k] == more@[k - old(list)@.len()]);
                }
            }
        }
    }
}

/// Whether point `(px, py)` lies in the rectangle with corner `(x, y)`
/// and the given size.
pub open spec fn in_rect(px: int, py: int, x: int, y: int, width: int, height: int) -> bool {
    x <= px < x + width && y <= py < y + height
}

/// A push button.
#[derive(Copy, Clone, Debug)]
pub struct Button {
    pub x: u64,
    pub y: u64,
    pub width: u64,
    pub height: u64,
    pub text: &'static str,
    pub bg_color: u32,
    pub fg_color: u32,
    pub pressed: bool,
}

impl Button {
    /// The far corner has coordinates.
    pub open spec fn wf(&self) -> bool {
        self.x + self.width <= u64::MAX && self.y + self.height <= u64::MAX
    }

    /// A button in the colours of the dark theme, not pressed.
    pub fn new(x: u64, y: u64, width: u64, height: u64, text: &'static str) -> (r: Self)
        ensures
            r.x == x,
            r.y == y,
            r.width == width,
            r.height == height,
            r.text == text,
            r.bg_color == dark_theme::BUTTON_PRIMARY,
            r.fg_color == dark_theme::TEXT_PRIMARY,
            !r.pressed,
    {
        Button {
            x,
            y,
            width,
            height,
            text,
            bg_color: dark_theme::BUTTON_PRIMARY,
            fg_color: dark_theme::TEXT_PRIMARY,
            pressed: false,
        }
    }

    /// Whether the button can be drawn: place, size and text are within
    /// the limit.
    pub open spec fn drawable(&self) -> bool {
        manageable_rect((self.x, self.y, if self.width < 75 {
            75
        } else {
            self.width
        }, self.height)) && text_fits(self.text)
    }

    /// The steps that draw the button: its face, in the colour of a
    /// pressed button while it is pressed, its border, and its text in
    /// the middle.
    pub open spec fn commands(&self) -> Seq<DrawCommand> {
        seq![
            DrawCommand::FillRect {
                x: self.x,
                y: self.y,
                width: self.width,
                height: self.height,
                color: if self.pressed {
                    dark_theme::BUTTON_PRESSED
                } else {
                    self.bg_color
                },
            },
            DrawCommand::Frame {
                x: self.x,
                y: self.y,
                width: self.width,
                height: self.height,
                color: dark_theme::BORDER,
                thickness: 1,
            },
            DrawCommand::Text {
                x: (self.x + minus_or_zero(
                    self.width as int / 2,
                    self.text.spec_bytes().len() as int * 9 / 2,
                )) as u64,
                y: (self.y + minus_or_zero(self.height as int / 2, 4)) as u64,
                text: self.text,
                color: self.fg_color,
            },
        ]
    }

    /// The steps that draw the button.
    pub fn display_list(&self) -> (r: Vec<DrawCommand>)
        requires
            self.drawable(),
        ensures
            r@ == self.commands(),
            all_valid(r@),
    {
        let bg: u32 = if self.pressed {
            dark_theme::BUTTON_PRESSED
        } else {
            self.bg_color
        };
        let half_text: u64 = (self.text.len() as u64 * 9) / 2;
        let text_x: u64 = self.x + (self.width / 2).saturating_sub(half_text);
        let text_y: u64 = self.y + (self.height / 2).saturating_sub(4);
        let mut out: Vec<DrawCommand> = Vec::new();
        out.push(
            DrawCommand::FillRect {
                x: self.x,
                y: self.y,
                width: self.width,
                height: self.height,
                color: bg,
            },
        );
        out.push(
            DrawCommand::Frame {
                x: self.x,
                y: self.y,
                width: self.width,
                height: self.height,
                color: dark_theme::BORDER,
                thickness: 1,
            },
        );
        out.push(DrawCommand::Text { x: text_x, y: text_y, text: self.text, color: self.fg_color });
        assert(out@ =~= self.commands());
        out
    }

    /// Draws the button.
    pub fn draw(&self, graphics: &mut Graphics)
        requires
            self.drawable(),
            old(graphics)@.wf(),
        ensures
            final(graphics)@.drawn(old(graphics)@, list_paint(self.commands(), 3)),
    {
        let list = self.display_list();
        run(graphics, &list);
    }

    /// Whether the point lies on the button.
    pub fn is_clicked(&self, mouse_x: u64, mouse_y: u64) -> (r: bool)
        requires
            self.wf(),
        ensures
            r == in_rect(
                mouse_x as int,
                mouse_y as int,
                self.x as int,
                self.y as int,
                self.width as int,
                self.height as int,
            ),
    {
        mouse_x >= self.x && mouse_x < self.x + self.width && mouse_y >= self.y && mouse_y < self.y
            + self.height
    }
}

/// A window with a title bar.
#[derive(Copy, Clone, Debug)]
pub struct Window {
    pub x: u64,
    pub y: u64,
    pub width: u64,
    pub height: u64,
    pub title: &'static str,
    pub bg_color: u32,
    pub visible: bool,
    pub has_close_button: bool,
}

impl Window {
    /// The far corner has coordinates, with room to spare for the title
    /// bar and the shadow, and the window is wide enough for the three
    /// buttons of its title bar.
    pub open spec fn wf(&self) -> bool {
        &&& self.placed()
        &&& self.x + self.width >= 75
    }

    /// The far corner has coordinates, with room to spare for the title
    /// bar and the shadow.
    pub open spec fn placed(&self) -> bool {
        &&& self.x + self.width + 3 <= u64::MAX
        &&& self.y + self.height + TITLEBAR_HEIGHT <= u64::MAX
    }

    /// Left edge of the button that sits `offset` from the right edge.
    pub open spec fn control_x(&self, offset: int) -> int {
        self.x + self.width - offset
    }

    /// Whether the point lies on the button that sits `offset` from the
    /// right edge of the title bar.
    pub open spec fn on_control(&self, offset: int, px: int, py: int) -> bool {
        in_rect(px, py, self.control_x(offset), self.y + 5, CONTROL_SIZE as int, CONTROL_SIZE as int)
    }

    /// Whether the point lies on the title bar.
    pub open spec fn on_titlebar(&self, px: int, py: int) -> bool {
        in_rect(px, py, self.x as int, self.y as int, self.width as int, TITLEBAR_HEIGHT as int)
    }

    /// Whether the point lies on the window.
    pub open spec fn contains(&self, px: int, py: int) -> bool {
        in_rect(px, py, self.x as int, self.y as int, self.width as int, self.height as int)
    }

    /// A visible window in the colours of the dark theme, with a close
    /// button.
    pub fn new(x: u64, y: u64, width: u64, height: u64, title: &'static str) -> (r: Self)
        ensures
            r.x == x,
            r.y == y,
            r.width == width,
            r.height == height,
            r.title == title,
            r.bg_color == dark_theme::SURFACE,
            r.visible,
            r.has_close_button,
    {
        Window {
            x,
            y,
            width,
            height,
            title,
            bg_color: dark_theme::SURFACE,
            visible: true,
            has_close_button: true,
        }
    }

    /// The steps that draw the window: nothing while it is hidden; else
    /// its body with an active title bar, and its close button if it has
    /// one.
    pub open spec fn commands(&self) -> Seq<DrawCommand> {
        if !self.visible {
            Seq::empty()
        } else if self.has_close_button {
            body_commands(*self, ui::TITLEBAR_ACTIVE, dark_theme::TEXT_PRIMARY)
                + close_button_commands(*self)
        } else {
            body_commands(*self, ui::TITLEBAR_ACTIVE, dark_theme::TEXT_PRIMARY)
        }
    }

    /// The steps that draw the window.
    pub fn display_list(&self) -> (r: Vec<DrawCommand>)
        requires
            manageable(*self),
        ensures
            r@ == self.commands(),
            all_valid(r@),
    {
        if !self.visible {
            return Vec::new();
        }
        let mut out = body_list(self, ui::TITLEBAR_ACTIVE, dark_theme::TEXT_PRIMARY);
        if self.has_close_button {
            let button = close_button_list(self);
            append_commands(&mut out, &button);
        }
        out
    }

    /// Draws the window.
    pub fn draw(&self, graphics: &mut Graphics)
        requires
            manageable(*self),
            old(graphics)@.wf(),
        ensures
            final(graphics)@.drawn(
                old(graphics)@,
                list_paint(self.commands(), self.commands().len() as int),
            ),
    {
        let list = self.display_list();
        run(graphics, &list);
    }

    /// Draws the close button of the window.
    pub fn draw_close_button(&self, graphics: &mut Graphics)
        requires
            manageable(*self),
            old(graphics)@.wf(),
        ensures
            final(graphics)@.drawn(old(graphics)@, list_paint(close_button_commands(*self), 3)),
    {
        let list = close_button_list(self);
        run(graphics, &list);
    }

    /// Whether the point lies on the close button of a visible window
    /// that has one.
    pub fn is_close_button_clicked(&self, mouse_x: u64, mouse_y: u64) -> (r: bool)
        requires
            self.placed(),
            self.x + self.width >= 25,
        ensures
            r == (self.has_close_button && self.visible && self.on_control(
                25,
                mouse_x as int,
                mouse_y as int,
            )),
    {
        if !self.has_close_button || !self.visible {
            return false;
        }
        let button_x: u64 = self.x + self.width - 25;
        let button_y: u64 = self.y + 5;
        let button_size: u64 = 20;
        mouse_x >= button_x && mouse_x < button_x + button_size && mouse_y >= button_y && mouse_y
            < button_y + button_size
    }

    /// Whether the point lies on the title bar of a visible window.
    pub fn is_titlebar_clicked(&self, mouse_x: u64, mouse_y: u64) -> (r: bool)
        requires
            self.placed(),
        ensures
            r == (self.visible && self.on_titlebar(mouse_x as int, mouse_y as int)),
    {
        if !self.visible {
            return false;
        }
        mouse_x >= self.x && mouse_x < self.x + self.width && mouse_y >= self.y && mouse_y < self.y
            + 30
    }

    /// Hides the window.
    pub fn close(&mut self)
        ensures
            *final(self) == (Window { visible: false, ..*old(self) }),
    {
        self.visible = false;
    }
}

} // verus!
