//! The window manager: up to sixteen windows in slots, their stacking
//! order from bottom to top, and what a click or a drag does to them.

use vstd::prelude::*;
use vstd::string::*;
use crate::colors::{dark_theme, ui, WHITE};
use crate::display_list::run;
use crate::graphics::{DrawCommand, Graphics, all_valid, list_paint};
use crate::widgets::{append_commands, body_commands, body_list, close_button_commands, close_button_list};
use crate::widgets::{Window, in_rect, manageable, manageable_rect, Rect, TITLEBAR_HEIGHT, CONTROL_SIZE};
pub use crate::widgets::COORD_LIMIT;

verus! {

/// Number of slots.
pub const MAX_WINDOWS: usize = 16;

/// Height of the task bar at the top of the screen.
pub const TASKBAR_HEIGHT: u64 = 40;

/// Width of one item of the task bar.
pub const TASKBAR_ITEM_WIDTH: u64 = 150;

/// Gap between two items of the task bar.
pub const TASKBAR_ITEM_SPACING: u64 = 5;

/// Distance from one item of the task bar to the next.
pub const TASKBAR_STRIDE: u64 = 155;

/// Where the items of the task bar begin.
pub const TASKBAR_START: u64 = 100;

#[derive(Clone, Copy, Debug, PartialEq, Eq, Structural)]
pub enum WindowState {
    Normal,
    Minimized,
    Maximized,
}

/// What a click can hit on a window, from the most specific to the least.
#[derive(Clone, Copy, Debug, PartialEq, Eq, Structural)]
pub enum Hit {
    Close,
    Maximize,
    Minimize,
    Titlebar,
    Body,
}

/// What a click at `(px, py)` hits on `w`, if anything: the three
/// buttons are looked at first, then the title bar, then the rest.
pub open spec fn hit_on(w: Window, px: int, py: int) -> Option<Hit> {
    if w.on_control(25, px, py) {
        Some(Hit::Close)
    } else if w.on_control(50, px, py) {
        Some(Hit::Maximize)
    } else if w.on_control(75, px, py) {
        Some(Hit::Minimize)
    } else if w.on_titlebar(px, py) {
        Some(Hit::Titlebar)
    } else if w.contains(px, py) {
        Some(Hit::Body)
    } else {
        None
    }
}

/// Position of the first `id` in `z` at or after `from`.
pub open spec fn position_from(z: Seq<usize>, id: usize, from: int) -> Option<int>
    decreases z.len() - from,
{
    if from < 0 || from >= z.len() {
        None
    } else if z[from] == id {
        Some(from)
    } else {
        position_from(z, id, from + 1)
    }
}

/// Left edge of the `i`-th item of the task bar.
pub open spec fn taskbar_item_x(i: int) -> int {
    TASKBAR_START + i * TASKBAR_STRIDE
}

/// The steps that draw the maximize button of `w`: a square on grey, or
/// two overlapping squares while the window is maximized.
pub open spec fn maximize_button_commands(w: Window, is_maximized: bool) -> Seq<DrawCommand> {
    let bx = (w.x + w.width - 50) as u64;
    let by = (w.y + 5) as u64;
    if is_maximized {
        seq![
            DrawCommand::FillRect {
                x: bx,
                y: by,
                width: 20,
                height: 20,
                color: dark_theme::BUTTON_SECONDARY,
            },
            DrawCommand::Frame {
                x: (bx + 6) as u64,
                y: (by + 6) as u64,
                width: 8,
                height: 8,
                color: WHITE,
                thickness: 1,
            },
            DrawCommand::Frame {
                x: (bx + 9) as u64,
                y: (by + 9) as u64,
                width: 8,
                height: 8,
                color: WHITE,
                thickness: 1,
            },
        ]
    } else {
        seq![
            DrawCommand::FillRect {
                x: bx,
                y: by,
                width: 20,
                height: 20,
                color: dark_theme::BUTTON_SECONDARY,
            },
            DrawCommand::Frame {
                x: (bx + 5) as u64,
                y: (by + 5) as u64,
                width: 10,
                height: 10,
                color: WHITE,
                thickness: 2,
            },
        ]
    }
}

/// The steps that draw the minimize button of `w`: a bar on grey.
pub open spec fn minimize_button_commands(w: Window) -> Seq<DrawCommand> {
    let bx = (w.x + w.width - 75) as u64;
    let by = (w.y + 5) as u64;
    seq![
        DrawCommand::FillRect {
            x: bx,
            y: by,
            width: 20,
            height: 20,
            color: dark_theme::BUTTON_SECONDARY,
        },
        DrawCommand::FillRect {
            x: (bx + 5) as u64,
            y: (by + 10) as u64,
            width: 10,
            height: 2,
            color: WHITE,
        },
    ]
}

/// The steps that draw `w` with its three buttons; title bar and title
/// are brighter while the window has the focus.
pub open spec fn window_commands(w: Window, is_focused: bool, is_maximized: bool) -> Seq<
    DrawCommand,
> {
    body_commands(
        w,
        if is_focused {
            ui::TITLEBAR_ACTIVE
        } else {
            ui::TITLEBAR
        },
        if is_focused {
            dark_theme::TEXT_PRIMARY
        } else {
            dark_theme::TEXT_SECONDARY
        },
    ) + close_button_commands(w) + maximize_button_commands(w, is_maximized)
        + minimize_button_commands(w)
}

/// The steps that draw the item of `w` in the task bar at `x`.
pub open spec fn taskbar_item_commands(w: Window, x: u64, is_focused: bool, is_minimized: bool) -> Seq<
    DrawCommand,
> {
    seq![
        DrawCommand::FillRect {
            x,
            y: 5,
            width: TASKBAR_ITEM_WIDTH,
            height: 30,
            color: if is_focused && !is_minimized {
                dark_theme::ACCENT_PRIMARY
            } else if is_minimized {
                dark_theme::BUTTON_SECONDARY
            } else {
                dark_theme::SURFACE
            },
        },
        DrawCommand::Frame {
            x,
            y: 5,
            width: TASKBAR_ITEM_WIDTH,
            height: 30,
            color: dark_theme::BORDER,
            thickness: 1,
        },
        DrawCommand::Text {
            x: (x + 8) as u64,
            y: 16,
            text: w.title,
            color: if is_focused && !is_minimized {
                WHITE
            } else {
                dark_theme::TEXT_PRIMARY
            },
        },
    ]
}

/// The mathematical state of the window manager.
pub struct WmState {
    pub windows: Seq<Option<Window>>,
    pub states: Seq<WindowState>,
    /// Place and size of each window before it was maximized.
    pub saved: Seq<Rect>,
    /// The slots of the windows from the bottom of the stack to the top.
    pub z_order: Seq<usize>,
    pub focused: Option<usize>,
    pub dragging: Option<usize>,
    pub drag_offset_x: i64,
    pub drag_offset_y: i64,
    pub screen_width: u64,
    pub screen_height: u64,
}

impl WmState {
    pub open spec fn wf(self) -> bool {
        &&& self.windows.len() == MAX_WINDOWS
        &&& self.states.len() == MAX_WINDOWS
        &&& self.saved.len() == MAX_WINDOWS
        &&& self.z_order.len() <= MAX_WINDOWS
        &&& forall|i: int| 0 <= i < self.z_order.len() ==> #[trigger] self.z_order[i] < MAX_WINDOWS
        &&& forall|i: int|
            0 <= i < MAX_WINDOWS ==> (#[trigger] self.windows[i] matches Some(w) ==> manageable(w)
                && (self.states[i] == WindowState::Maximized ==> manageable_rect(self.saved[i])))
        &&& self.dragging matches Some(id) ==> id < MAX_WINDOWS
        &&& 0 <= self.drag_offset_x <= COORD_LIMIT
        &&& 0 <= self.drag_offset_y <= COORD_LIMIT
        &&& 75 <= self.screen_width <= COORD_LIMIT
        &&& TASKBAR_HEIGHT <= self.screen_height <= COORD_LIMIT
    }

    /// Whether slot `id` holds a window.
    pub open spec fn has(self, id: usize) -> bool {
        id < MAX_WINDOWS && self.windows[id as int] is Some
    }

    /// The steps that draw the window at position `i` of the stack, none
    /// if it is minimized or hidden.
    pub open spec fn shown_commands(self, i: int) -> Seq<DrawCommand> {
        let id = self.z_order[i];
        match self.windows[id as int] {
            Some(w) => if self.states[id as int] != WindowState::Minimized && w.visible {
                window_commands(
                    w,
                    self.focused == Some(id),
                    self.states[id as int] == WindowState::Maximized,
                )
            } else {
                Seq::empty()
            },
            None => Seq::empty(),
        }
    }

    /// The steps that draw the first `n` windows of the stack, bottom
    /// first.
    pub open spec fn stack_commands(self, n: int) -> Seq<DrawCommand>
        decreases n,
    {
        if n <= 0 {
            Seq::empty()
        } else {
            self.stack_commands(n - 1) + self.shown_commands(n - 1)
        }
    }

    /// The steps that draw the task bar with the items of the first `n`
    /// windows of the stack.
    pub open spec fn taskbar_commands(self, n: int) -> Seq<DrawCommand>
        decreases n,
    {
        if n <= 0 {
            seq![
                DrawCommand::FillRect {
                    x: 0,
                    y: 0,
                    width: self.screen_width,
                    height: TASKBAR_HEIGHT,
                    color: dark_theme::SURFACE_VARIANT,
                },
                DrawCommand::Frame {
                    x: 0,
                    y: 39,
                    width: self.screen_width,
                    height: 1,
                    color: dark_theme::BORDER,
                    thickness: 1,
                },
                DrawCommand::Text { x: 15, y: 16, text: "OxideOS", color: dark_theme::ACCENT_PRIMARY },
            ]
        } else {
            let id = self.z_order[n - 1];
            self.taskbar_commands(n - 1) + (match self.windows[id as int] {
                Some(w) => taskbar_item_commands(
                    w,
                    taskbar_item_x(n - 1) as u64,
                    self.focused == Some(id),
                    self.states[id as int] == WindowState::Minimized,
                ),
                None => Seq::empty(),
            })
        }
    }

    /// The first free slot at or after `from`.
    pub open spec fn free_slot(self, from: int) -> Option<int>
        decreases MAX_WINDOWS - from,
    {
        if from < 0 || from >= MAX_WINDOWS {
            None
        } else if self.windows[from] is None {
            Some(from)
        } else {
            self.free_slot(from + 1)
        }
    }

    /// State and result of adding `window`: it goes into the first free
    /// slot and on top of the stack and gets the focus; a full manager
    /// takes nothing.
    pub open spec fn add_window(self, window: Window) -> (WmState, Option<usize>) {
        if self.z_order.len() >= MAX_WINDOWS {
            (self, None)
        } else {
            match self.free_slot(0) {
                Some(i) => (
                    WmState {
                        windows: self.windows.update(i, Some(window)),
                        states: self.states.update(i, WindowState::Normal),
                        z_order: self.z_order.push(i as usize),
                        focused: Some(i as usize),
                        ..self
                    },
                    Some(i as usize),
                ),
                None => (self, None),
            }
        }
    }

    /// The state after the window in slot `id` is gone: its slot is free,
    /// it has left the stack, the focus has gone to the top of the stack
    /// if it was on the window, and a drag of the window is over.
    pub open spec fn remove_window(self, id: usize) -> WmState {
        if !self.has(id) {
            self
        } else {
            let z = match position_from(self.z_order, id, 0) {
                Some(p) => self.z_order.remove(p),
                None => self.z_order,
            };
            WmState {
                windows: self.windows.update(id as int, None),
                z_order: z,
                focused: if self.focused == Some(id) {
                    if z.len() > 0 {
                        Some(z.last())
                    } else {
                        None
                    }
                } else {
                    self.focused
                },
                dragging: if self.dragging == Some(id) {
                    None
                } else {
                    self.dragging
                },
                ..self
            }
        }
    }

    /// The state after the window in slot `id` has come to the top of the
    /// stack and taken the focus; a window that is on top already, or is
    /// not in the stack, changes nothing.
    pub open spec fn bring_to_front(self, id: usize) -> WmState {
        if !self.has(id) {
            self
        } else {
            match position_from(self.z_order, id, 0) {
                Some(p) => if p == self.z_order.len() - 1 {
                    self
                } else {
                    WmState {
                        z_order: self.z_order.remove(p).push(id),
                        focused: Some(id),
                        ..self
                    }
                },
                None => self,
            }
        }
    }

    /// The topmost window at or below position `i` of the stack `z` that
    /// is not `skip` and not minimized.
    pub open spec fn next_focus(
        z: Seq<usize>,
        states: Seq<WindowState>,
        skip: usize,
        i: int,
    ) -> Option<usize>
        decreases i + 1,
    {
        if i < 0 || i >= z.len() {
            None
        } else if z[i] != skip && states[z[i] as int] != WindowState::Minimized {
            Some(z[i])
        } else {
            Self::next_focus(z, states, skip, i - 1)
        }
    }

    /// The state after the window in slot `id` has been minimized; if it
    /// had the focus, the focus goes to the topmost window that is left
    /// showing.
    pub open spec fn minimize_window(self, id: usize) -> WmState {
        if !self.has(id) {
            self
        } else {
            let states = self.states.update(id as int, WindowState::Minimized);
            WmState {
                states,
                focused: if self.focused == Some(id) {
                    Self::next_focus(self.z_order, states, id, self.z_order.len() - 1)
                } else {
                    self.focused
                },
                ..self
            }
        }
    }

    /// The state after the window in slot `id` has been maximized, or put
    /// back to where it was if it was maximized already.
    pub open spec fn maximize_window(self, id: usize) -> WmState {
        if !self.has(id) {
            self
        } else {
            let w = self.windows[id as int].unwrap();
            if self.states[id as int] == WindowState::Maximized {
                let r = self.saved[id as int];
                WmState {
                    windows: self.windows.update(
                        id as int,
                        Some(Window { x: r.0, y: r.1, width: r.2, height: r.3, ..w }),
                    ),
                    states: self.states.update(id as int, WindowState::Normal),
                    ..self
                }
            } else {
                WmState {
                    windows: self.windows.update(
                        id as int,
                        Some(
                            Window {
                                x: 0,
                                y: TASKBAR_HEIGHT,
                                width: self.screen_width,
                                height: (self.screen_height - TASKBAR_HEIGHT) as u64,
                                ..w
                            },
                        ),
                    ),
                    states: self.states.update(id as int, WindowState::Maximized),
                    saved: self.saved.update(id as int, (w.x, w.y, w.width, w.height)),
                    ..self
                }
            }
        }
    }

    /// The state after the window in slot `id` has been brought back: a
    /// minimized window shows again and comes to the front, a maximized
    /// one returns to where it was.
    pub open spec fn restore_window(self, id: usize) -> WmState {
        if id >= MAX_WINDOWS {
            self
        } else {
            match self.states[id as int] {
                WindowState::Minimized => (WmState {
                    states: self.states.update(id as int, WindowState::Normal),
                    ..self
                }).bring_to_front(id),
                WindowState::Maximized => self.maximize_window(id),
                WindowState::Normal => self,
            }
        }
    }

    /// The first item of the task bar, at or after position `i`, that
    /// `mouse_x` lies on.
    pub open spec fn taskbar_item(self, mouse_x: int, i: int) -> Option<int>
        decreases self.z_order.len() - i,
    {
        if i < 0 || i >= self.z_order.len() {
            None
        } else if taskbar_item_x(i) <= mouse_x < taskbar_item_x(i) + TASKBAR_ITEM_WIDTH {
            Some(i)
        } else {
            self.taskbar_item(mouse_x, i + 1)
        }
    }

    /// State and result of a click on the task bar: the item hit restores
    /// its window if that is minimized, minimizes it if it has the focus,
    /// and brings it to the front otherwise.
    pub open spec fn taskbar_click(self, mouse_x: int) -> (WmState, bool) {
        match self.taskbar_item(mouse_x, 0) {
            Some(i) => {
                let id = self.z_order[i];
                (
                    if self.states[id as int] == WindowState::Minimized {
                        self.restore_window(id)
                    } else if self.focused == Some(id) {
                        self.minimize_window(id)
                    } else {
                        self.bring_to_front(id)
                    },
                    true,
                )
            },
            None => (self, false),
        }
    }

    /// What a click at `(px, py)` hits, looking down the stack from
    /// position `i`: minimized and hidden windows are looked through.
    pub open spec fn topmost_hit(self, px: int, py: int, i: int) -> Option<(usize, Hit)>
        decreases i + 1,
    {
        if i < 0 || i >= self.z_order.len() {
            None
        } else {
            let id = self.z_order[i];
            let seen = match self.windows[id as int] {
                Some(w) => if self.states[id as int] != WindowState::Minimized && w.visible {
                    hit_on(w, px, py)
                } else {
                    None
                },
                None => None,
            };
            match seen {
                Some(hit) => Some((id, hit)),
                None => self.topmost_hit(px, py, i - 1),
            }
        }
    }

    /// State and result of a click: above the windows lies the task bar;
    /// below it the topmost window under the click is closed, maximized,
    /// minimized, or brought to the front, and a click on the title bar
    /// of a window that is not maximized starts a drag.
    pub open spec fn click(self, mouse_x: u64, mouse_y: u64) -> (WmState, bool) {
        if mouse_y < TASKBAR_HEIGHT {
            self.taskbar_click(mouse_x as int)
        } else {
            match self.topmost_hit(mouse_x as int, mouse_y as int, self.z_order.len() - 1) {
                Some((id, hit)) => (
                    match hit {
                        Hit::Close => self.remove_window(id),
                        Hit::Maximize => self.maximize_window(id),
                        Hit::Minimize => self.minimize_window(id),
                        Hit::Titlebar => {
                            let front = self.bring_to_front(id);
                            if front.states[id as int] != WindowState::Maximized {
                                let w = self.windows[id as int].unwrap();
                                WmState {
                                    dragging: Some(id),
                                    drag_offset_x: (mouse_x - w.x) as i64,
                                    drag_offset_y: (mouse_y - w.y) as i64,
                                    ..front
                                }
                            } else {
                                front
                            }
                        },
                        Hit::Body => self.bring_to_front(id),
                    },
                    true,
                ),
                None => (self, false),
            }
        }
    }

    /// The state after the mouse has moved to `(mouse_x, mouse_y)`: the
    /// window being dragged follows, but not off the left edge and not
    /// onto the task bar.
    pub open spec fn drag(self, mouse_x: u64, mouse_y: u64) -> WmState {
        match self.dragging {
            Some(id) => match self.windows[id as int] {
                Some(w) => {
                    let x = mouse_x - self.drag_offset_x;
                    let y = mouse_y - self.drag_offset_y;
                    WmState {
                        windows: self.windows.update(
                            id as int,
                            Some(
                                Window {
                                    x: if x < 0 {
                                        0
                                    } else {
                                        x as u64
                                    },
                                    y: if y < TASKBAR_HEIGHT {
                                        TASKBAR_HEIGHT
                                    } else {
                                        y as u64
                                    },
                                    ..w
                                },
                            ),
                        ),
                        ..self
                    }
                },
                None => self,
            },
            None => self,
        }
    }
}

pub struct WindowManager {
    windows: [Option<Window>; 16],
    window_states: [WindowState; 16],
    saved_positions: [Rect; 16],
    z_order: [usize; 16],
    window_count: usize,
    focused_window: Option<usize>,
    dragging_window: Option<usize>,
    drag_offset_x: i64,
    drag_offset_y: i64,
    screen_width: u64,
    screen_height: u64,
}

impl View for WindowManager {
    type V = WmState;

    closed spec fn view(&self) -> WmState {
        WmState {
            windows: self.windows@,
            states: self.window_states@,
            saved: self.saved_positions@,
            z_order: if self.window_count <= MAX_WINDOWS {
                self.z_order@.take(self.window_count as int)
            } else {
                self.z_order@
            },
            focused: self.focused_window,
            dragging: self.dragging_window,
            drag_offset_x: self.drag_offset_x,
            drag_offset_y: self.drag_offset_y,
            screen_width: self.screen_width,
            screen_height: self.screen_height,
        }
    }
}

impl WindowManager {
    /// The number of windows fits the slots.
    pub closed spec fn counted(&self) -> bool {
        self.window_count <= MAX_WINDOWS
    }

    /// What every method asks for and keeps.
    pub open spec fn wf(&self) -> bool {
        self.counted() && self@.wf()
    }

    /// A manager without windows for a screen of 1280 by 800.
    pub fn new() -> (r: Self)
        ensures
            r.wf(),
            r@.z_order == Seq::<usize>::empty(),
            forall|i: int| 0 <= i < MAX_WINDOWS ==> r@.windows[i] is None,
            r@.focused is None,
            r@.dragging is None,
            r@.screen_width == 1280,
            r@.screen_height == 800,
    {
        let r = WindowManager {
            windows: [None; 16],
            window_states: [WindowState::Normal; 16],
            saved_positions: [(0, 0, 0, 0); 16],
            z_order: [0; 16],
            window_count: 0,
            focused_window: None,
            dragging_window: None,
            drag_offset_x: 0,
            drag_offset_y: 0,
            screen_width: 1280,
            screen_height: 800,
        };
        assert(r@.z_order =~= Seq::<usize>::empty());
        r
    }

    /// Tells the manager how large the screen is.
    pub fn set_screen_dimensions(&mut self, width: u64, height: u64)
        requires
            old(self).wf(),
            75 <= width <= COORD_LIMIT,
            TASKBAR_HEIGHT <= height <= COORD_LIMIT,
        ensures
            final(self).wf(),
            final(self)@ == (WmState { screen_width: width, screen_height: height, ..old(self)@ }),
    {
        self.screen_width = width;
        self.screen_height = height;
    }

    /// Adds `window` and returns its slot.
    pub fn add_window(&mut self, window: Window) -> (r: Option<usize>)
        requires
            old(self).wf(),
            manageable(window),
        ensures
            final(self).wf(),
            (final(self)@, r) == old(self)@.add_window(window),
    {
        if self.window_count >= MAX_WINDOWS {
            return None;
        }
        let mut i: usize = 0;
        while i < MAX_WINDOWS
            invariant
                0 <= i <= MAX_WINDOWS,
                *self == *old(self),
                self.wf(),
                manageable(window),
                self.window_count < MAX_WINDOWS,
                self@.free_slot(0) == self@.free_slot(i as int),
            decreases MAX_WINDOWS - i,
        {
            if self.windows[i].is_none() {
                self.windows[i] = Some(window);
                self.window_states[i] = WindowState::Normal;
                self.z_order[self.window_count] = i;
                self.window_count = self.window_count + 1;
                self.focused_window = Some(i);
                proof {
                    assert(self@.z_order =~= old(self)@.z_order.push(i));
                    assert(self@.windows =~= old(self)@.windows.update(i as int, Some(window)));
                    assert(self@.states =~= old(self)@.states.update(
                        i as int,
                        WindowState::Normal,
                    ));
                    assert(old(self)@.free_slot(i as int) == Some(i as int));
                    assert forall|k: int| 0 <= k < MAX_WINDOWS implies (
                    #[trigger] self@.windows[k] matches Some(w) ==> manageable(w) && (self@.states[k]
                        == WindowState::Maximized ==> manageable_rect(self@.saved[k]))) by {
                        if k != i {
                            assert(old(self)@.windows[k] == self@.windows[k]);
                        }
                    }
                    assert forall|j: int| 0 <= j < self@.z_order.len() implies #[trigger] self@.z_order[j]
                        < MAX_WINDOWS by {
                        if j < old(self)@.z_order.len() {
                            assert(old(self)@.z_order[j] < MAX_WINDOWS);
                        }
                    }
                }
                return Some(i);
            }
            i = i + 1;
        }
        None
    }

    /// Position of `id` in the stack.
    fn find(&self, id: usize) -> (r: Option<usize>)
        requires
            self.wf(),
        ensures
            r matches Some(p) ==> position_from(self@.z_order, id, 0) == Some(p as int) && p
                < self@.z_order.len() && self@.z_order[p as int] == id,
            r is None ==> position_from(self@.z_order, id, 0) is None,
    {
        let mut i: usize = 0;
        while i < self.window_count
            invariant
                0 <= i <= self.window_count,
                self.wf(),
                position_from(self@.z_order, id, 0) == position_from(self@.z_order, id, i as int),
            decreases self.window_count - i,
        {
            if self.z_order[i] == id {
                return Some(i);
            }
            i = i + 1;
        }
        None
    }

    /// Takes position `p` out of the stack.
    fn take_out(&mut self, p: usize)
        requires
            old(self).wf(),
            p < old(self)@.z_order.len(),
        ensures
            final(self).counted(),
            final(self)@ == (WmState { z_order: old(self)@.z_order.remove(p as int), ..old(self)@ }),
    {
        let ghost z = self@.z_order;
        let mut i: usize = p;
        while i < self.window_count - 1
            invariant
                p <= i <= self.window_count - 1,
                self.window_count == old(self).window_count,
                self.window_count <= MAX_WINDOWS,
                self.windows == old(self).windows,
                self.window_states == old(self).window_states,
                self.saved_positions == old(self).saved_positions,
                self.focused_window == old(self).focused_window,
                self.dragging_window == old(self).dragging_window,
                self.drag_offset_x == old(self).drag_offset_x,
                self.drag_offset_y == old(self).drag_offset_y,
                self.screen_width == old(self).screen_width,
                self.screen_height == old(self).screen_height,
                z == old(self)@.z_order,
                z.len() == self.window_count,
                forall|j: int| 0 <= j < p ==> self.z_order[j] == z[j],
                forall|j: int| p <= j < i ==> self.z_order[j] == z[j + 1],
                forall|j: int| i <= j < self.window_count ==> self.z_order[j] == z[j],
            decreases self.window_count - 1 - i,
        {
            self.z_order[i] = self.z_order[i + 1];
            i = i + 1;
        }
        self.window_count = self.window_count - 1;
        assert(self@.z_order =~= z.remove(p as int));
    }

    /// Removes the window in slot `window_id`.
    pub fn remove_window(&mut self, window_id: usize)
        requires
            old(self).wf(),
        ensures
            final(self).wf(),
            final(self)@ == old(self)@.remove_window(window_id),
    {
        if window_id >= MAX_WINDOWS || self.windows[window_id].is_none() {
            return ;
        }
        self.windows[window_id] = None;
        assert(self@.windows =~= old(self)@.windows.update(window_id as int, None));
        match self.find(window_id) {
            Some(p) => {
                self.take_out(p);
            },
            None => {},
        }
        if self.focused_window == Some(window_id) {
            self.focused_window = if self.window_count > 0 {
                Some(self.z_order[self.window_count - 1])
            } else {
                None
            };
        }
        if self.dragging_window == Some(window_id) {
            self.dragging_window = None;
        }
    }

    /// Brings the window in slot `window_id` to the top of the stack.
    pub fn bring_to_front(&mut self, window_id: usize)
        requires
            old(self).wf(),
        ensures
            final(self).wf(),
            final(self)@ == old(self)@.bring_to_front(window_id),
    {
        if window_id >= MAX_WINDOWS || self.windows[window_id].is_none() {
            return ;
        }
        match self.find(window_id) {
            Some(p) => {
                if p == self.window_count - 1 {
                    return ;
                }
                self.take_out(p);
                assert(self.window_count == self@.z_order.len());
                self.z_order[self.window_count] = window_id;
                self.window_count = self.window_count + 1;
                self.focused_window = Some(window_id);
                proof {
                    assert(self@.z_order =~= old(self)@.z_order.remove(p as int).push(window_id));
                    assert forall|j: int| 0 <= j < self@.z_order.len() implies #[trigger] self@.z_order[j]
                        < MAX_WINDOWS by {
                        if j < p {
                            assert(old(self)@.z_order[j] < MAX_WINDOWS);
                        } else if j < self@.z_order.len() - 1 {
                            assert(old(self)@.z_order[j + 1] < MAX_WINDOWS);
                        }
                    }
                }
            },
            None => {},
        }
    }

    /// Minimizes the window in slot `window_id`.
    pub fn minimize_window(&mut self, window_id: usize)
        requires
            old(self).wf(),
        ensures
            final(self).wf(),
            final(self)@ == old(self)@.minimize_window(window_id),
    {
        if window_id >= MAX_WINDOWS || self.windows[window_id].is_none() {
            return ;
        }
        self.window_states[window_id] = WindowState::Minimized;
        assert(self@.states =~= old(self)@.states.update(
            window_id as int,
            WindowState::Minimized,
        ));
        if self.focused_window == Some(window_id) {
            self.focused_window = None;
            let ghost marked = self@;
            let mut i: usize = self.window_count;
            while i > 0
                invariant
                    0 <= i <= self.window_count,
                    self.wf(),
                    self@ == marked,
                    self.focused_window is None,
                    old(self)@.has(window_id),
                    old(self)@.focused == Some(window_id),
                    marked == (WmState {
                        states: old(self)@.states.update(
                            window_id as int,
                            WindowState::Minimized,
                        ),
                        focused: None,
                        ..old(self)@
                    }),
                    WmState::next_focus(
                        marked.z_order,
                        marked.states,
                        window_id,
                        marked.z_order.len() - 1,
                    ) == WmState::next_focus(marked.z_order, marked.states, window_id, i - 1),
                decreases i,
            {
                i = i - 1;
                let id = self.z_order[i];
                assert(id == self@.z_order[i as int]);
                if id != window_id && self.window_states[id] != WindowState::Minimized {
                    self.focused_window = Some(id);
                    return ;
                }
            }
        }
    }

    /// Maximizes the window in slot `window_id`, or puts it back if it is
    /// maximized.
    pub fn maximize_window(&mut self, window_id: usize)
        requires
            old(self).wf(),
        ensures
            final(self).wf(),
            final(self)@ == old(self)@.maximize_window(window_id),
    {
        if window_id >= MAX_WINDOWS {
            return ;
        }
        match self.windows[window_id] {
            Some(window) => {
                let mut window = window;
                if self.window_states[window_id] == WindowState::Maximized {
                    let (x, y, w, h) = self.saved_positions[window_id];
                    window.x = x;
                    window.y = y;
                    window.width = w;
                    window.height = h;
                    self.windows[window_id] = Some(window);
                    self.window_states[window_id] = WindowState::Normal;
                } else {
                    self.saved_positions[window_id] = (
                        window.x,
                        window.y,
                        window.width,
                        window.height,
                    );
                    window.x = 0;
                    window.y = TASKBAR_HEIGHT;
                    window.width = self.screen_width;
                    window.height = self.screen_height - TASKBAR_HEIGHT;
                    self.windows[window_id] = Some(window);
                    self.window_states[window_id] = WindowState::Maximized;
                }
                proof {
                    assert(self@.windows =~= old(self)@.maximize_window(window_id).windows);
                    assert(self@.states =~= old(self)@.maximize_window(window_id).states);
                    assert(self@.saved =~= old(self)@.maximize_window(window_id).saved);
                }
            },
            None => {},
        }
    }

    /// Brings the window in slot `window_id` back from being minimized or
    /// maximized.
    pub fn restore_window(&mut self, window_id: usize)
        requires
            old(self).wf(),
        ensures
            final(self).wf(),
            final(self)@ == old(self)@.restore_window(window_id),
    {
        if window_id >= MAX_WINDOWS {
            return ;
        }
        match self.window_states[window_id] {
            WindowState::Minimized => {
                self.window_states[window_id] = WindowState::Normal;
                assert(self@.states =~= old(self)@.states.update(
                    window_id as int,
                    WindowState::Normal,
                ));
                self.bring_to_front(window_id);
            },
            WindowState::Maximized => {
                self.maximize_window(window_id);
            },
            WindowState::Normal => {},
        }
    }

    fn handle_taskbar_click(&mut self, mouse_x: u64) -> (r: bool)
        requires
            old(self).wf(),
        ensures
            final(self).wf(),
            (final(self)@, r) == old(self)@.taskbar_click(mouse_x as int),
    {
        let mut i: usize = 0;
        while i < self.window_count
            invariant
                0 <= i <= self.window_count <= MAX_WINDOWS,
                *self == *old(self),
                self.wf(),
                self@.taskbar_item(mouse_x as int, 0) == self@.taskbar_item(mouse_x as int, i as int),
            decreases self.window_count - i,
        {
            let window_id = self.z_order[i];
            assert(window_id == self@.z_order[i as int]);
            let item_x: u64 = TASKBAR_START + (i as u64) * TASKBAR_STRIDE;
            if mouse_x >= item_x && mouse_x < item_x + TASKBAR_ITEM_WIDTH {
                if self.window_states[window_id] == WindowState::Minimized {
                    self.restore_window(window_id);
                } else if self.focused_window == Some(window_id) {
                    self.minimize_window(window_id);
                } else {
                    self.bring_to_front(window_id);
                }
                return true;
            }
            i = i + 1;
        }
        false
    }

    /// Whether the point lies on the button that sits `offset` from the
    /// right edge of the title bar of `window`.
    fn is_control_clicked(window: &Window, offset: u64, mouse_x: u64, mouse_y: u64) -> (r: bool)
        requires
            manageable(*window),
            offset <= 75,
        ensures
            r == window.on_control(offset as int, mouse_x as int, mouse_y as int),
    {
        let button_x: u64 = window.x + window.width - offset;
        let button_y: u64 = window.y + 5;
        mouse_x >= button_x && mouse_x < button_x + CONTROL_SIZE && mouse_y >= button_y && mouse_y
            < button_y + CONTROL_SIZE
    }

    /// Whether the point lies on the close button of `window`.
    pub fn is_close_button_clicked(window: &Window, mouse_x: u64, mouse_y: u64) -> (r: bool)
        requires
            manageable(*window),
        ensures
            r == window.on_control(25, mouse_x as int, mouse_y as int),
    {
        Self::is_control_clicked(window, 25, mouse_x, mouse_y)
    }

    /// Whether the point lies on the maximize button of `window`.
    pub fn is_maximize_button_clicked(window: &Window, mouse_x: u64, mouse_y: u64) -> (r: bool)
        requires
            manageable(*window),
        ensures
            r == window.on_control(50, mouse_x as int, mouse_y as int),
    {
        Self::is_control_clicked(window, 50, mouse_x, mouse_y)
    }

    /// Whether the point lies on the minimize button of `window`.
    pub fn is_minimize_button_clicked(window: &Window, mouse_x: u64, mouse_y: u64) -> (r: bool)
        requires
            manageable(*window),
        ensures
            r == window.on_control(75, mouse_x as int, mouse_y as int),
    {
        Self::is_control_clicked(window, 75, mouse_x, mouse_y)
    }

    /// What the point hits on `window`.
    pub fn hit_test(window: &Window, mouse_x: u64, mouse_y: u64) -> (r: Option<Hit>)
        requires
            manageable(*window),
        ensures
            r == hit_on(*window, mouse_x as int, mouse_y as int),
    {
        if Self::is_close_button_clicked(window, mouse_x, mouse_y) {
            Some(Hit::Close)
        } else if Self::is_maximize_button_clicked(window, mouse_x, mouse_y) {
            Some(Hit::Maximize)
        } else if Self::is_minimize_button_clicked(window, mouse_x, mouse_y) {
            Some(Hit::Minimize)
        } else if mouse_x >= window.x && mouse_x < window.x + window.width && mouse_y >= window.y
            && mouse_y < window.y + TITLEBAR_HEIGHT {
            Some(Hit::Titlebar)
        } else if mouse_x >= window.x && mouse_x < window.x + window.width && mouse_y >= window.y
            && mouse_y < window.y + window.height {
            Some(Hit::Body)
        } else {
            None
        }
    }

    /// Handles a click at `(mouse_x, mouse_y)` and says whether it hit
    /// anything.
    pub fn handle_click(&mut self, mouse_x: u64, mouse_y: u64) -> (r: bool)
        requires
            old(self).wf(),
            mouse_x <= COORD_LIMIT,
            mouse_y <= COORD_LIMIT,
        ensures
            final(self).wf(),
            (final(self)@, r) == old(self)@.click(mouse_x, mouse_y),
    {
        if mouse_y < TASKBAR_HEIGHT {
            return self.handle_taskbar_click(mouse_x);
        }
        let mut found: Option<(usize, Hit)> = None;
        let mut i: usize = self.window_count;
        while i > 0 && found.is_none()
            invariant
                0 <= i <= self.window_count,
                *self == *old(self),
                self.wf(),
                found is None ==> self@.topmost_hit(
                    mouse_x as int,
                    mouse_y as int,
                    self@.z_order.len() - 1,
                ) == self@.topmost_hit(mouse_x as int, mouse_y as int, i - 1),
                found is Some ==> self@.topmost_hit(
                    mouse_x as int,
                    mouse_y as int,
                    self@.z_order.len() - 1,
                ) == found,
                found matches Some((id, hit)) ==> id < MAX_WINDOWS && (
                self@.windows[id as int] matches Some(w) && hit_on(w, mouse_x as int, mouse_y as int)
                    == Some(hit)),
            decreases i,
        {
            i = i - 1;
            let window_id = self.z_order[i];
            assert(window_id == self@.z_order[i as int]);
            if self.window_states[window_id] != WindowState::Minimized {
                match &self.windows[window_id] {
                    Some(window) => {
                        if window.visible {
                            match Self::hit_test(window, mouse_x, mouse_y) {
                                Some(hit) => {
                                    found = Some((window_id, hit));
                                },
                                None => {},
                            }
                        }
                    },
                    None => {},
                }
            }
        }
        match found {
            Some((window_id, hit)) => {
                match hit {
                    Hit::Close => {
                        self.remove_window(window_id);
                    },
                    Hit::Maximize => {
                        self.maximize_window(window_id);
                    },
                    Hit::Minimize => {
                        self.minimize_window(window_id);
                    },
                    Hit::Titlebar => {
                        let window = self.windows[window_id].unwrap();
                        let offset_x: i64 = mouse_x as i64 - window.x as i64;
                        let offset_y: i64 = mouse_y as i64 - window.y as i64;
                        self.bring_to_front(window_id);
                        if self.window_states[window_id] != WindowState::Maximized {
                            self.dragging_window = Some(window_id);
                            self.drag_offset_x = offset_x;
                            self.drag_offset_y = offset_y;
                        }
                    },
                    Hit::Body => {
                        self.bring_to_front(window_id);
                    },
                }
                true
            },
            None => false,
        }
    }

    /// Moves the window that is being dragged along with the mouse.
    pub fn handle_drag(&mut self, mouse_x: u64, mouse_y: u64)
        requires
            old(self).wf(),
            mouse_x <= COORD_LIMIT,
            mouse_y <= COORD_LIMIT,
        ensures
            final(self).wf(),
            final(self)@ == old(self)@.drag(mouse_x, mouse_y),
    {
        match self.dragging_window {
            Some(window_id) => {
                match self.windows[window_id] {
                    Some(window) => {
                        let mut window = window;
                        let x: i64 = mouse_x as i64 - self.drag_offset_x;
                        let y: i64 = mouse_y as i64 - self.drag_offset_y;
                        window.x = if x < 0 {
                            0
                        } else {
                            x as u64
                        };
                        window.y = if y < TASKBAR_HEIGHT as i64 {
                            TASKBAR_HEIGHT
                        } else {
                            y as u64
                        };
                        self.windows[window_id] = Some(window);
                        assert(self@.windows =~= old(self)@.drag(mouse_x, mouse_y).windows);
                    },
                    None => {},
                }
            },
            None => {},
        }
    }

    /// Ends a drag.
    pub fn release_drag(&mut self)
        requires
            old(self).wf(),
        ensures
            final(self).wf(),
            final(self)@ == (WmState { dragging: None, ..old(self)@ }),
    {
        if self.dragging_window.is_some() {
            self.dragging_window = None;
        }
    }

    /// The window in slot `window_id`.
    pub fn get_window(&self, window_id: usize) -> (r: Option<&Window>)
        ensures
            r == (if window_id < MAX_WINDOWS {
                match self@.windows[window_id as int] {
                    Some(w) => Some(&w),
                    None => None,
                }
            } else {
                None
            }),
    {
        if window_id < MAX_WINDOWS {
            match &self.windows[window_id] {
                Some(w) => Some(w),
                None => None,
            }
        } else {
            None
        }
    }

    /// The window in slot `window_id`, to be changed in place. Nothing
    /// else of the manager changes, whatever is done to the window.
    pub fn get_window_mut(&mut self, window_id: usize) -> (r: Option<&mut Window>)
        ensures
            r is Some == old(self)@.has(window_id),
            r matches Some(w) ==> Some(*w) == old(self)@.windows[window_id as int]
                && final(self)@ == (WmState {
                    windows: old(self)@.windows.update(window_id as int, Some(*final(w))),
                    ..old(self)@
                })
                && (old(self).wf() && manageable(*final(w)) ==> final(self).wf()),
            r is None ==> *final(self) == *old(self),
    {
        if window_id < MAX_WINDOWS && self.windows[window_id].is_some() {
            self.windows[window_id].as_mut()
        } else {
            None
        }
    }

    /// Whether the window in slot `window_id` is normal, minimized or
    /// maximized.
    pub fn window_state(&self, window_id: usize) -> (r: Option<WindowState>)
        ensures
            r == (if window_id < MAX_WINDOWS {
                Some(self@.states[window_id as int])
            } else {
                None
            }),
    {
        if window_id < MAX_WINDOWS {
            Some(self.window_states[window_id])
        } else {
            None
        }
    }

    /// The slots of the windows from the bottom of the stack to the top.
    pub fn stacking_order(&self) -> (r: Vec<usize>)
        requires
            self.wf(),
        ensures
            r@ == self@.z_order,
    {
        let mut out: Vec<usize> = Vec::new();
        let mut i: usize = 0;
        while i < self.window_count
            invariant
                0 <= i <= self.window_count <= MAX_WINDOWS,
                out@ == self.z_order@.take(i as int),
            decreases self.window_count - i,
        {
            out.push(self.z_order[i]);
            assert(self.z_order@.take(i + 1) =~= self.z_order@.take(i as int).push(
                self.z_order@[i as int],
            ));
            i = i + 1;
        }
        out
    }

    /// The slot of the window that has the focus.
    pub fn get_focused(&self) -> (r: Option<usize>)
        ensures
            r == self@.focused,
    {
        self.focused_window
    }

    /// Whether a window is being dragged.
    pub fn is_dragging(&self) -> (r: bool)
        ensures
            r == self@.dragging is Some,
    {
        self.dragging_window.is_some()
    }

    /// The steps that draw the maximize button of `window`.
    pub fn maximize_button_list(window: &Window, is_maximized: bool) -> (r: Vec<DrawCommand>)
        requires
            manageable(*window),
        ensures
            r@ == maximize_button_commands(*window, is_maximized),
            all_valid(r@),
    {
        let button_x: u64 = window.x + window.width - 50;
        let button_y: u64 = window.y + 5;
        let mut out: Vec<DrawCommand> = Vec::new();
        out.push(
            DrawCommand::FillRect {
                x: button_x,
                y: button_y,
                width: 20,
                height: 20,
                color: dark_theme::BUTTON_SECONDARY,
            },
        );
        if is_maximized {
            out.push(
                DrawCommand::Frame {
                    x: button_x + 6,
                    y: button_y + 6,
                    width: 8,
                    height: 8,
                    color: WHITE,
                    thickness: 1,
                },
            );
            out.push(
                DrawCommand::Frame {
                    x: button_x + 9,
                    y: button_y + 9,
                    width: 8,
                    height: 8,
                    color: WHITE,
                    thickness: 1,
                },
            );
        } else {
            out.push(
                DrawCommand::Frame {
                    x: button_x + 5,
                    y: button_y + 5,
                    width: 10,
                    height: 10,
                    color: WHITE,
                    thickness: 2,
                },
            );
        }
        assert(out@ =~= maximize_button_commands(*window, is_maximized));
        out
    }

    /// The steps that draw the minimize button of `window`.
    pub fn minimize_button_list(window: &Window) -> (r: Vec<DrawCommand>)
        requires
            manageable(*window),
        ensures
            r@ == minimize_button_commands(*window),
            all_valid(r@),
    {
        let button_x: u64 = window.x + window.width - 75;
        let button_y: u64 = window.y + 5;
        let mut out: Vec<DrawCommand> = Vec::new();
        out.push(
            DrawCommand::FillRect {
                x: button_x,
                y: button_y,
                width: 20,
                height: 20,
                color: dark_theme::BUTTON_SECONDARY,
            },
        );
        out.push(
            DrawCommand::FillRect {
                x: button_x + 5,
                y: button_y + 10,
                width: 10,
                height: 2,
                color: WHITE,
            },
        );
        assert(out@ =~= minimize_button_commands(*window));
        out
    }

    /// Draws the maximize button of `window`.
    pub fn draw_maximize_button(graphics: &mut Graphics, window: &Window, is_maximized: bool)
        requires
            manageable(*window),
            old(graphics)@.wf(),
        ensures
            final(graphics)@.drawn(
                old(graphics)@,
                list_paint(
                    maximize_button_commands(*window, is_maximized),
                    maximize_button_commands(*window, is_maximized).len() as int,
                ),
            ),
    {
        let list = Self::maximize_button_list(window, is_maximized);
        run(graphics, &list);
    }

    /// Draws the minimize button of `window`.
    pub fn draw_minimize_button(graphics: &mut Graphics, window: &Window)
        requires
            manageable(*window),
            old(graphics)@.wf(),
        ensures
            final(graphics)@.drawn(
                old(graphics)@,
                list_paint(
                    minimize_button_commands(*window),
                    minimize_button_commands(*window).len() as int,
                ),
            ),
    {
        let list = Self::minimize_button_list(window);
        run(graphics, &list);
    }

    /// The steps that draw `window` with its three buttons.
    pub fn window_list(window: &Window, is_focused: bool, is_maximized: bool) -> (r: Vec<
        DrawCommand,
    >)
        requires
            manageable(*window),
        ensures
            r@ == window_commands(*window, is_focused, is_maximized),
            all_valid(r@),
    {
        let titlebar_color: u32 = if is_focused {
            ui::TITLEBAR_ACTIVE
        } else {
            ui::TITLEBAR
        };
        let title_color: u32 = if is_focused {
            dark_theme::TEXT_PRIMARY
        } else {
            dark_theme::TEXT_SECONDARY
        };
        let mut out = body_list(window, titlebar_color, title_color);
        append_commands(&mut out, &close_button_list(window));
        append_commands(&mut out, &Self::maximize_button_list(window, is_maximized));
        append_commands(&mut out, &Self::minimize_button_list(window));
        out
    }

    /// Draws `window` with its three buttons.
    pub fn draw_window_with_controls(
        graphics: &mut Graphics,
        window: &Window,
        is_focused: bool,
        is_maximized: bool,
    )
        requires
            manageable(*window),
            old(graphics)@.wf(),
        ensures
            final(graphics)@.drawn(
                old(graphics)@,
                list_paint(
                    window_commands(*window, is_focused, is_maximized),
                    window_commands(*window, is_focused, is_maximized).len() as int,
                ),
            ),
    {
        let list = Self::window_list(window, is_focused, is_maximized);
        run(graphics, &list);
    }

    /// The steps that draw all windows, from the bottom of the stack to
    /// the top. Minimized and hidden windows are left out.
    pub fn stack_list(&self) -> (r: Vec<DrawCommand>)
        requires
            self.wf(),
        ensures
            r@ == self@.stack_commands(self@.z_order.len() as int),
            all_valid(r@),
    {
        let mut out: Vec<DrawCommand> = Vec::new();
        let mut i: usize = 0;
        while i < self.window_count
            invariant
                0 <= i <= self.window_count <= MAX_WINDOWS,
                self.wf(),
                out@ == self@.stack_commands(i as int),
                all_valid(out@),
            decreases self.window_count - i,
        {
            let window_id = self.z_order[i];
            assert(window_id == self@.z_order[i as int]);
            if self.window_states[window_id] != WindowState::Minimized {
                match &self.windows[window_id] {
                    Some(window) => {
                        if window.visible {
                            let is_focused = match self.focused_window {
                                Some(f) => f == window_id,
                                None => false,
                            };
                            let is_maximized = self.window_states[window_id]
                                == WindowState::Maximized;
                            let list = Self::window_list(window, is_focused, is_maximized);
                            append_commands(&mut out, &list);
                        }
                    },
                    None => {},
                }
            }
            proof {
                assert(out@ =~= self@.stack_commands(i as int) + self@.shown_commands(i as int));
            }
            i = i + 1;
        }
        out
    }

    /// Draws all windows, from the bottom of the stack to the top.
    pub fn draw_all(&self, graphics: &mut Graphics)
        requires
            self.wf(),
            old(graphics)@.wf(),
        ensures
            final(graphics)@.drawn(
                old(graphics)@,
                list_paint(
                    self@.stack_commands(self@.z_order.len() as int),
                    self@.stack_commands(self@.z_order.len() as int).len() as int,
                ),
            ),
    {
        let list = self.stack_list();
        run(graphics, &list);
    }

    /// The steps that draw the task bar: its background, the name of the
    /// system, and one item for every window of the stack.
    pub fn taskbar_list(&self) -> (r: Vec<DrawCommand>)
        requires
            self.wf(),
        ensures
            r@ == self@.taskbar_commands(self@.z_order.len() as int),
            all_valid(r@),
    {
        proof {
            reveal_strlit("OxideOS");
        }
        let mut out: Vec<DrawCommand> = Vec::new();
        out.push(
            DrawCommand::FillRect {
                x: 0,
                y: 0,
                width: self.screen_width,
                height: TASKBAR_HEIGHT,
                color: dark_theme::SURFACE_VARIANT,
            },
        );
        out.push(
            DrawCommand::Frame {
                x: 0,
                y: TASKBAR_HEIGHT - 1,
                width: self.screen_width,
                height: 1,
                color: dark_theme::BORDER,
                thickness: 1,
            },
        );
        out.push(
            DrawCommand::Text { x: 15, y: 16, text: "OxideOS", color: dark_theme::ACCENT_PRIMARY },
        );
        assert(out@ =~= self@.taskbar_commands(0));
        let mut i: usize = 0;
        while i < self.window_count
            invariant
                0 <= i <= self.window_count <= MAX_WINDOWS,
                self.wf(),
                out@ == self@.taskbar_commands(i as int),
                all_valid(out@),
            decreases self.window_count - i,
        {
            let window_id = self.z_order[i];
            assert(window_id == self@.z_order[i as int]);
            let item_x: u64 = TASKBAR_START + (i as u64) * TASKBAR_STRIDE;
            match &self.windows[window_id] {
                Some(window) => {
                    let is_focused = match self.focused_window {
                        Some(f) => f == window_id,
                        None => false,
                    };
                    let is_minimized = self.window_states[window_id] == WindowState::Minimized;
                    let list = Self::taskbar_item_list(window, item_x, is_focused, is_minimized);
                    append_commands(&mut out, &list);
                },
                None => {
                    assert(out@ =~= out@ + Seq::<DrawCommand>::empty());
                },
            }
            i = i + 1;
        }
        out
    }

    /// The steps that draw the item of `window` in the task bar at `x`.
    pub fn taskbar_item_list(window: &Window, x: u64, is_focused: bool, is_minimized: bool) -> (r:
        Vec<DrawCommand>)
        requires
            manageable(*window),
            x <= COORD_LIMIT,
        ensures
            r@ == taskbar_item_commands(*window, x, is_focused, is_minimized),
            all_valid(r@),
    {
        let bg_color: u32 = if is_focused && !is_minimized {
            dark_theme::ACCENT_PRIMARY
        } else if is_minimized {
            dark_theme::BUTTON_SECONDARY
        } else {
            dark_theme::SURFACE
        };
        let text_color: u32 = if is_focused && !is_minimized {
            WHITE
        } else {
            dark_theme::TEXT_PRIMARY
        };
        let mut out: Vec<DrawCommand> = Vec::new();
        out.push(
            DrawCommand::FillRect {
                x,
                y: 5,
                width: TASKBAR_ITEM_WIDTH,
                height: 30,
                color: bg_color,
            },
        );
        out.push(
            DrawCommand::Frame {
                x,
                y: 5,
                width: TASKBAR_ITEM_WIDTH,
                height: 30,
                color: dark_theme::BORDER,
                thickness: 1,
            },
        );
        out.push(DrawCommand::Text { x: x + 8, y: 16, text: window.title, color: text_color });
        assert(out@ =~= taskbar_item_commands(*window, x, is_focused, is_minimized));
        out
    }

    /// Draws the item of `window` in the task bar at `x`.
    pub fn draw_taskbar_item(
        graphics: &mut Graphics,
        window: &Window,
        x: u64,
        is_focused: bool,
        is_minimized: bool,
    )
        requires
            manageable(*window),
            x <= COORD_LIMIT,
            old(graphics)@.wf(),
        ensures
            final(graphics)@.drawn(
                old(graphics)@,
                list_paint(
                    taskbar_item_commands(*window, x, is_focused, is_minimized),
                    taskbar_item_commands(*window, x, is_focused, is_minimized).len() as int,
                ),
            ),
    {
        let list = Self::taskbar_item_list(window, x, is_focused, is_minimized);
        run(graphics, &list);
    }

    /// Draws the task bar.
    pub fn draw_taskbar(&self, graphics: &mut Graphics)
        requires
            self.wf(),
            old(graphics)@.wf(),
        ensures
            final(graphics)@.drawn(
                old(graphics)@,
                list_paint(
                    self@.taskbar_commands(self@.z_order.len() as int),
                    self@.taskbar_commands(self@.z_order.len() as int).len() as int,
                ),
            ),
    {
        let list = self.taskbar_list();
        run(graphics, &list);
    }
}

} // verus!
