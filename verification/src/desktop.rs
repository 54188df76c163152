//! The desktop: the windows it starts with, and one turn of the loop that
//! follows the mouse, moves and raises windows, and redraws what changed.

use vstd::prelude::*;
use vstd::string::*;
use crate::colors::dark_theme;
use crate::graphics::{
    cursor_paint, in_box, lemma_drawn_over, list_paint, no_paint, over, Graphics, Paint, Screen,
    CURSOR_HEIGHT, CURSOR_WIDTH,
};
use crate::widgets::{manageable, Window, COORD_LIMIT};
use crate::window_manager::{WindowManager, WmState, TASKBAR_HEIGHT};

verus! {

/// The colour of the mouse cursor's outline.
pub const POINTER_COLOR: u32 = 0xFFFF_FFFF;

/// The narrowest screen that has room for the windows of the start.
pub const NARROWEST_SCREEN: u64 = 320;

/// Whether the mouse cursor can stand at `pos`.
pub open spec fn on_desktop(pos: (i64, i64)) -> bool {
    0 <= pos.0 <= COORD_LIMIT && 0 <= pos.1 <= COORD_LIMIT
}

/// The first window of the start.
pub open spec fn terminal_window() -> Window {
    Window {
        x: 100,
        y: 100,
        width: 400,
        height: 250,
        title: "Terminal",
        bg_color: dark_theme::SURFACE,
        visible: true,
        has_close_button: true,
    }
}

/// The second window of the start, near the right edge of a screen that
/// is `screen_width` wide.
pub open spec fn info_window(screen_width: u64) -> Window {
    Window {
        x: (screen_width - 320) as u64,
        y: 100,
        width: 300,
        height: 220,
        title: "System Info",
        bg_color: dark_theme::SURFACE,
        visible: true,
        has_close_button: true,
    }
}

/// The windows `wm` with the two windows of the start added.
pub open spec fn with_demo_windows(wm: WmState, screen_width: u64) -> WmState {
    wm.add_window(terminal_window()).0.add_window(info_window(screen_width)).0
}

/// The windows `wm` on a screen of the size of `screen`.
pub open spec fn fitted(wm: WmState, screen: Screen) -> WmState {
    WmState { screen_width: screen.width as u64, screen_height: screen.height as u64, ..wm }
}

/// What putting back the pixels `saved` from under the cursor at `pos`
/// paints; nothing where no cursor was drawn yet.
pub open spec fn saved_paint(pos: (i64, i64), saved: [[u32; 11]; 19]) -> Paint {
    |px: int, py: int|
        if pos.0 >= 0 && in_box(
            px,
            py,
            pos.0 as int,
            pos.1 as int,
            CURSOR_WIDTH as int,
            CURSOR_HEIGHT as int,
        ) {
            Some(saved[py - pos.1][px - pos.0])
        } else {
            None
        }
}

/// The task bar of `wm` on the background.
pub open spec fn backdrop_paint(wm: WmState) -> Paint {
    over(
        list_paint(
            wm.taskbar_commands(wm.z_order.len() as int),
            wm.taskbar_commands(wm.z_order.len() as int).len() as int,
        ),
        |x: int, y: int| Some(dark_theme::BACKGROUND),
    )
}

/// The whole picture of `wm`: the background, the task bar on it, the
/// windows on top.
pub open spec fn scene_paint(wm: WmState) -> Paint {
    over(
        list_paint(
            wm.stack_commands(wm.z_order.len() as int),
            wm.stack_commands(wm.z_order.len() as int).len() as int,
        ),
        backdrop_paint(wm),
    )
}

/// The mouse cursor at `cursor_pos`; nothing where there is no mouse.
pub open spec fn pointer_paint(cursor_pos: Option<(i64, i64)>) -> Paint {
    match cursor_pos {
        Some(pos) => |px: int, py: int| cursor_paint(px, py, pos.0 as int, pos.1 as int, POINTER_COLOR),
        None => no_paint(),
    }
}

/// What the loop remembers from one turn to the next.
#[derive(Copy, Clone, Debug)]
pub struct Desktop {
    /// Where the cursor was drawn last; `(-1, -1)` before the first time.
    pub last_cursor_pos: (i64, i64),
    /// What the cursor covers where it was drawn last.
    pub saved_pixels: [[u32; 11]; 19],
    /// Whether the left button was down at the last turn.
    pub last_left_button: bool,
    /// Whether the picture has to be drawn anew.
    pub needs_redraw: bool,
}

impl Desktop {
    /// The cursor was drawn nowhere or on the desktop.
    pub open spec fn wf(self) -> bool {
        self.last_cursor_pos.0 >= 0 ==> on_desktop(self.last_cursor_pos)
    }

    /// Whether a mouse at `pos` drags a window along: it has moved and a
    /// window is held.
    pub open spec fn drags(self, wm: WmState, pos: (i64, i64)) -> bool {
        pos != self.last_cursor_pos && wm.dragging is Some
    }

    /// Whether the left button has just gone down.
    pub open spec fn presses(self, left_button: bool) -> bool {
        left_button && !self.last_left_button
    }

    /// Whether the left button has just come up.
    pub open spec fn lets_go(self, left_button: bool) -> bool {
        !left_button && self.last_left_button
    }

    /// The windows after the mouse has been looked at: a held window
    /// follows the mouse, a press of the button is a click, and its
    /// release ends the drag. Without a mouse nothing happens.
    pub open spec fn windows_after(
        self,
        wm: WmState,
        cursor_pos: Option<(i64, i64)>,
        left_button: bool,
    ) -> WmState {
        match cursor_pos {
            None => wm,
            Some(pos) => {
                let dragged = if self.drags(wm, pos) {
                    wm.drag(pos.0 as u64, pos.1 as u64)
                } else {
                    wm
                };
                let clicked = if self.presses(left_button) {
                    dragged.click(pos.0 as u64, pos.1 as u64).0
                } else {
                    dragged
                };
                if self.lets_go(left_button) {
                    WmState { dragging: None, ..clicked }
                } else {
                    clicked
                }
            },
        }
    }

    /// What is remembered after the mouse has been looked at: where it is
    /// and what its button does, and that the picture is out of date
    /// after a drag or a click.
    pub open spec fn after_pointer(
        self,
        wm: WmState,
        cursor_pos: Option<(i64, i64)>,
        left_button: bool,
    ) -> Desktop {
        match cursor_pos {
            None => self,
            Some(pos) => Desktop {
                last_cursor_pos: pos,
                last_left_button: left_button,
                needs_redraw: self.needs_redraw || self.drags(wm, pos) || self.presses(left_button),
                ..self
            },
        }
    }

    /// What lies under the cursor once a turn has put back the old
    /// pixels and, where the picture was out of date, drawn it anew.
    pub open spec fn below_pointer(
        self,
        wm: WmState,
        cursor_pos: Option<(i64, i64)>,
        left_button: bool,
    ) -> Paint {
        over(
            if self.after_pointer(wm, cursor_pos, left_button).needs_redraw {
                scene_paint(self.windows_after(wm, cursor_pos, left_button))
            } else {
                no_paint()
            },
            saved_paint(self.last_cursor_pos, self.saved_pixels),
        )
    }

    /// A loop that has drawn nothing yet.
    pub fn new() -> (r: Self)
        ensures
            r.wf(),
            r.last_cursor_pos == (-1i64, -1i64),
            !r.last_left_button,
            r.needs_redraw,
            forall|row: int, col: int|
                0 <= row < CURSOR_HEIGHT && 0 <= col < CURSOR_WIDTH ==> #[trigger] r.saved_pixels[row][col]
                    == 0,
    {
        Desktop {
            last_cursor_pos: (-1, -1),
            saved_pixels: [[0u32; 11]; 19],
            last_left_button: false,
            needs_redraw: true,
        }
    }

    /// Looks at the mouse and tells the window manager what it did.
    pub fn pointer(&mut self, wm: &mut WindowManager, cursor_pos: Option<(i64, i64)>, left_button: bool)
        requires
            old(wm).wf(),
            cursor_pos matches Some(pos) ==> on_desktop(pos),
        ensures
            final(wm).wf(),
            final(wm)@ == old(self).windows_after(old(wm)@, cursor_pos, left_button),
            *final(self) == old(self).after_pointer(old(wm)@, cursor_pos, left_button),
    {
        if let Some((mx, my)) = cursor_pos {
            if mx != self.last_cursor_pos.0 || my != self.last_cursor_pos.1 {
                if wm.is_dragging() {
                    wm.handle_drag(mx as u64, my as u64);
                    self.needs_redraw = true;
                }
                self.last_cursor_pos = (mx, my);
            }
            if left_button && !self.last_left_button {
                wm.handle_click(mx as u64, my as u64);
                self.needs_redraw = true;
            }
            if !left_button && self.last_left_button {
                wm.release_drag();
            }
            self.last_left_button = left_button;
        }
    }

    /// Draws the picture of `wm` anew: the background, the task bar, the
    /// windows.
    pub fn redraw(graphics: &mut Graphics, wm: &WindowManager)
        requires
            wm.wf(),
            old(graphics)@.wf(),
        ensures
            final(graphics)@.drawn(old(graphics)@, scene_paint(wm@)),
    {
        let ghost start = graphics@;
        graphics.clear_screen(dark_theme::BACKGROUND);
        let ghost cleared = graphics@;
        wm.draw_taskbar(graphics);
        proof {
            lemma_drawn_over(
                start,
                cleared,
                graphics@,
                |x: int, y: int| Some(dark_theme::BACKGROUND),
                list_paint(
                    wm@.taskbar_commands(wm@.z_order.len() as int),
                    wm@.taskbar_commands(wm@.z_order.len() as int).len() as int,
                ),
            );
        }
        let ghost backdrop = graphics@;
        wm.draw_all(graphics);
        proof {
            lemma_drawn_over(
                start,
                backdrop,
                graphics@,
                backdrop_paint(wm@),
                list_paint(
                    wm@.stack_commands(wm@.z_order.len() as int),
                    wm@.stack_commands(wm@.z_order.len() as int).len() as int,
                ),
            );
        }
    }

    /// One turn of the loop: puts back what the cursor covered, looks at
    /// the mouse, draws the picture anew if it is out of date, and draws
    /// the cursor where the mouse is now, keeping what it covers.
    pub fn turn(
        &mut self,
        graphics: &mut Graphics,
        wm: &mut WindowManager,
        cursor_pos: Option<(i64, i64)>,
        left_button: bool,
    )
        requires
            old(self).wf(),
            old(wm).wf(),
            old(graphics)@.wf(),
            cursor_pos matches Some(pos) ==> on_desktop(pos),
        ensures
            final(self).wf(),
            final(wm).wf(),
            final(wm)@ == old(self).windows_after(old(wm)@, cursor_pos, left_button),
            final(self).last_cursor_pos == old(self).after_pointer(
                old(wm)@,
                cursor_pos,
                left_button,
            ).last_cursor_pos,
            final(self).last_left_button == old(self).after_pointer(
                old(wm)@,
                cursor_pos,
                left_button,
            ).last_left_button,
            !final(self).needs_redraw,
            final(graphics)@.drawn(
                old(graphics)@,
                over(
                    pointer_paint(cursor_pos),
                    old(self).below_pointer(old(wm)@, cursor_pos, left_button),
                ),
            ),
            cursor_pos is None ==> final(self).saved_pixels == old(self).saved_pixels,
            cursor_pos matches Some(pos) ==> forall|row: int, col: int|
                0 <= row < CURSOR_HEIGHT && 0 <= col < CURSOR_WIDTH ==> #[trigger] final(self).saved_pixels[row][col] == (if old(graphics)@.on(pos.0 + col, pos.1 + row) {
                    match old(self).below_pointer(old(wm)@, cursor_pos, left_button)(
                        pos.0 + col,
                        pos.1 + row,
                    ) {
                        Some(c) => c,
                        None => old(graphics)@.at(pos.0 + col, pos.1 + row),
                    }
                } else {
                    0
                }),
    {
        let ghost start = graphics@;
        let ghost restore = saved_paint(self.last_cursor_pos, self.saved_pixels);
        if self.last_cursor_pos.0 >= 0 {
            graphics.restore_cursor_area(
                self.last_cursor_pos.0,
                self.last_cursor_pos.1,
                &self.saved_pixels,
            );
        }
        let ghost restored = graphics@;
        assert(restored.drawn(start, restore));
        self.pointer(wm, cursor_pos, left_button);
        let ghost scene = if self.needs_redraw {
            scene_paint(wm@)
        } else {
            no_paint()
        };
        if self.needs_redraw {
            Self::redraw(graphics, wm);
            self.needs_redraw = false;
        }
        let ghost below = graphics@;
        assert(below.drawn(restored, scene));
        proof {
            lemma_drawn_over(start, restored, below, restore, scene);
        }
        if let Some((mx, my)) = cursor_pos {
            self.saved_pixels = graphics.save_cursor_area(mx, my);
            graphics.draw_cursor(mx, my, POINTER_COLOR);
        }
        assert(graphics@.drawn(below, pointer_paint(cursor_pos)));
        proof {
            lemma_drawn_over(start, below, graphics@, over(scene, restore), pointer_paint(cursor_pos));
        }
    }
}

/// Adds the two windows of the start to `wm`, which knows of a screen
/// that is `screen_width` wide.
pub fn init_demo_windows(wm: &mut WindowManager, screen_width: u64, _screen_height: u64)
    requires
        old(wm).wf(),
        NARROWEST_SCREEN <= screen_width <= COORD_LIMIT,
    ensures
        final(wm).wf(),
        final(wm)@ == with_demo_windows(old(wm)@, screen_width),
{
    proof {
        broadcast use is_ascii_spec_bytes;

        reveal_strlit("Terminal");
        reveal_strlit("System Info");
        assert(is_ascii("Terminal"));
        assert(is_ascii("System Info"));
    }
    let win1 = Window::new(100, 100, 400, 250, "Terminal");
    wm.add_window(win1);
    let win2 = Window::new(screen_width - 320, 100, 300, 220, "System Info");
    wm.add_window(win2);
}

/// Sets the desktop up on a cleared screen: the task bar, and the two
/// windows of the start, which are drawn with the first turn of the loop.
pub fn create_boot_screen(graphics: &mut Graphics, wm: &mut WindowManager)
    requires
        old(wm).wf(),
        old(graphics)@.wf(),
        NARROWEST_SCREEN <= old(graphics)@.width <= COORD_LIMIT,
        TASKBAR_HEIGHT <= old(graphics)@.height <= COORD_LIMIT,
    ensures
        final(wm).wf(),
        final(wm)@ == with_demo_windows(
            fitted(old(wm)@, old(graphics)@),
            old(graphics)@.width as u64,
        ),
        final(graphics)@.drawn(old(graphics)@, backdrop_paint(fitted(old(wm)@, old(graphics)@))),
{
    let (width, height) = graphics.get_dimensions();
    let ghost start = graphics@;
    graphics.clear_screen(dark_theme::BACKGROUND);
    let ghost cleared = graphics@;
    wm.set_screen_dimensions(width, height);
    wm.draw_taskbar(graphics);
    proof {
        lemma_drawn_over(
            start,
            cleared,
            graphics@,
            |x: int, y: int| Some(dark_theme::BACKGROUND),
            list_paint(
                wm@.taskbar_commands(wm@.z_order.len() as int),
                wm@.taskbar_commands(wm@.z_order.len() as int).len() as int,
            ),
        );
    }
    init_demo_windows(wm, width, height);
}

} // verus!
