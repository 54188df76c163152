//! The mouse cursor and the three-byte packets of a PS/2 mouse.

use vstd::prelude::*;

verus! {

#[derive(Copy, Clone, Debug, PartialEq, Eq, Structural)]
pub enum MouseButton {
    Left,
    Right,
    Middle,
}

/// Where the cursor is and how it looks.
#[derive(Copy, Clone, Debug, PartialEq, Eq, Structural)]
pub struct MouseCursor {
    pub x: i64,
    pub y: i64,
    pub visible: bool,
    pub color: u32,
}

/// `v` kept within `lo` and `hi`: raised to `lo` first, then cut to `hi`.
pub open spec fn clamped(v: int, lo: int, hi: int) -> int {
    let raised = if v < lo {
        lo
    } else {
        v
    };
    if raised > hi {
        hi
    } else {
        raised
    }
}

/// The movement that a byte of a packet stands for: the byte read as a
/// signed number.
pub open spec fn movement(byte: u8) -> int {
    if byte < 128 {
        byte as int
    } else {
        byte - 256
    }
}

impl MouseCursor {
    /// A visible white cursor at (400, 300).
    pub fn new() -> (r: Self)
        ensures
            r == (MouseCursor { x: 400, y: 300, visible: true, color: 0xFFFF_FFFF }),
    {
        MouseCursor { x: 400, y: 300, visible: true, color: 0xFFFF_FFFF }
    }

    /// Moves the cursor by `dx` to the right and `dy` up and keeps it on a
    /// screen of the given size.
    pub fn update(&mut self, dx: i8, dy: i8, screen_width: u64, screen_height: u64)
        requires
            i64::MIN + 128 <= old(self).x <= i64::MAX - 128,
            i64::MIN + 128 <= old(self).y <= i64::MAX - 128,
            screen_width <= i64::MAX,
            screen_height <= i64::MAX,
        ensures
            final(self).x == clamped(old(self).x + dx, 0, screen_width - 1),
            final(self).y == clamped(old(self).y - dy, 0, screen_height - 1),
            final(self).visible == old(self).visible,
            final(self).color == old(self).color,
            screen_width > 0 ==> 0 <= final(self).x < screen_width,
            screen_height > 0 ==> 0 <= final(self).y < screen_height,
    {
        let moved_x: i64 = self.x + dx as i64;
        let moved_y: i64 = self.y - dy as i64;
        let max_x: i64 = screen_width as i64 - 1;
        let max_y: i64 = screen_height as i64 - 1;
        let raised_x: i64 = if moved_x < 0 {
            0
        } else {
            moved_x
        };
        let raised_y: i64 = if moved_y < 0 {
            0
        } else {
            moved_y
        };
        self.x = if raised_x > max_x {
            max_x
        } else {
            raised_x
        };
        self.y = if raised_y > max_y {
            max_y
        } else {
            raised_y
        };
    }

    pub fn get_position(&self) -> (r: (i64, i64))
        ensures
            r == (self.x, self.y),
    {
        (self.x, self.y)
    }
}

/// Whether the status byte of the keyboard controller says that a byte is
/// waiting and that it comes from the mouse.
pub fn mouse_data_pending(status: u8) -> (r: bool)
    ensures
        r == (status & 0x01 != 0 && status & 0x20 != 0),
{
    (status & 0x01) != 0 && (status & 0x20) != 0
}

/// State of the mouse: the packet being put together and the buttons as
/// the last whole packet left them.
#[derive(Copy, Clone, Debug)]
pub struct PS2Mouse {
    pub packet_buffer: [u8; 3],
    pub packet_index: usize,
    pub left_button: bool,
    pub right_button: bool,
    pub middle_button: bool,
}

impl PS2Mouse {
    /// Number of bytes of the packet that have come in.
    pub open spec fn pending(&self) -> int {
        self.packet_index as int
    }

    /// The bytes of the packet, of which the first `pending()` count.
    pub open spec fn buffer(&self) -> Seq<u8> {
        self.packet_buffer@
    }

    pub open spec fn wf(&self) -> bool {
        0 <= self.pending() < 3 && self.buffer().len() == 3
    }

    /// A mouse of which nothing has been heard: no byte of a packet has
    /// come in, the buffer holds zeros, and no button is down.
    pub fn new() -> (r: Self)
        ensures
            r.wf(),
            r.pending() == 0,
            r.buffer() == seq![0u8, 0u8, 0u8],
            !r.left_button,
            !r.right_button,
            !r.middle_button,
    {
        PS2Mouse {
            packet_buffer: [0; 3],
            packet_index: 0,
            left_button: false,
            right_button: false,
            middle_button: false,
        }
    }

    /// Takes in one byte from the mouse. A byte that would start a packet
    /// but lacks the mark of a first byte (bit 3) is dropped. The third
    /// byte completes the packet: the buttons are set from the first
    /// byte, and the cursor moves by the second and third.
    pub fn handle_interrupt(
        &mut self,
        data: u8,
        cursor: &mut MouseCursor,
        screen_width: u64,
        screen_height: u64,
    )
        requires
            old(self).wf(),
            i64::MIN + 128 <= old(cursor).x <= i64::MAX - 128,
            i64::MIN + 128 <= old(cursor).y <= i64::MAX - 128,
            screen_width <= i64::MAX,
            screen_height <= i64::MAX,
        ensures
            final(self).wf(),
            old(self).pending() == 0 && data & 0x08 == 0 ==> *final(self) == *old(self)
                && *final(cursor) == *old(cursor),
            !(old(self).pending() == 0 && data & 0x08 == 0) && old(self).pending() < 2 ==> {
                &&& final(self).pending() == old(self).pending() + 1
                &&& final(self).buffer() == old(self).buffer().update(old(self).pending(), data)
                &&& final(self).left_button == old(self).left_button
                &&& final(self).right_button == old(self).right_button
                &&& final(self).middle_button == old(self).middle_button
                &&& *final(cursor) == *old(cursor)
            },
            old(self).pending() == 2 ==> {
                &&& final(self).pending() == 0
                &&& final(self).buffer() == old(self).buffer().update(2, data)
                &&& final(self).left_button == (old(self).buffer()[0] & 0x01 != 0)
                &&& final(self).right_button == (old(self).buffer()[0] & 0x02 != 0)
                &&& final(self).middle_button == (old(self).buffer()[0] & 0x04 != 0)
                &&& final(cursor).x == clamped(
                    old(cursor).x + movement(old(self).buffer()[1]),
                    0,
                    screen_width - 1,
                )
                &&& final(cursor).y == clamped(old(cursor).y - movement(data), 0, screen_height - 1)
                &&& final(cursor).visible == old(cursor).visible
                &&& final(cursor).color == old(cursor).color
            },
    {
        if self.packet_index == 0 && (data & 0x08) == 0 {
            return ;
        }
        self.packet_buffer[self.packet_index] = data;
        self.packet_index = self.packet_index + 1;
        if self.packet_index >= 3 {
            self.process_packet(cursor, screen_width, screen_height);
            self.packet_index = 0;
        }
    }

    /// Reads the three bytes of a whole packet.
    fn process_packet(&mut self, cursor: &mut MouseCursor, screen_width: u64, screen_height: u64)
        requires
            old(self).buffer().len() == 3,
            i64::MIN + 128 <= old(cursor).x <= i64::MAX - 128,
            i64::MIN + 128 <= old(cursor).y <= i64::MAX - 128,
            screen_width <= i64::MAX,
            screen_height <= i64::MAX,
        ensures
            final(self).buffer() == old(self).buffer(),
            final(self).pending() == old(self).pending(),
            final(self).left_button == (old(self).buffer()[0] & 0x01 != 0),
            final(self).right_button == (old(self).buffer()[0] & 0x02 != 0),
            final(self).middle_button == (old(self).buffer()[0] & 0x04 != 0),
            final(cursor).x == clamped(
                old(cursor).x + movement(old(self).buffer()[1]),
                0,
                screen_width - 1,
            ),
            final(cursor).y == clamped(
                old(cursor).y - movement(old(self).buffer()[2]),
                0,
                screen_height - 1,
            ),
            final(cursor).visible == old(cursor).visible,
            final(cursor).color == old(cursor).color,
    {
        let flags: u8 = self.packet_buffer[0];
        let dx: i8 = signed(self.packet_buffer[1]);
        let dy: i8 = signed(self.packet_buffer[2]);
        self.left_button = (flags & 0x01) != 0;
        self.right_button = (flags & 0x02) != 0;
        self.middle_button = (flags & 0x04) != 0;
        cursor.update(dx, dy, screen_width, screen_height);
    }

    pub fn is_left_clicked(&self) -> (r: bool)
        ensures
            r == self.left_button,
    {
        self.left_button
    }

    pub fn is_right_clicked(&self) -> (r: bool)
        ensures
            r == self.right_button,
    {
        self.right_button
    }
}

/// A byte read as a signed number.
pub fn signed(byte: u8) -> (r: i8)
    ensures
        r == movement(byte),
{
    if byte < 128 {
        byte as i8
    } else {
        (byte as i16 - 256) as i8
    }
}

/// Where the cursor is, if there is one.
pub fn get_mouse_position(cursor: Option<&MouseCursor>) -> (r: Option<(i64, i64)>)
    ensures
        r == (match cursor {
            Some(c) => Some((c.x, c.y)),
            None => None,
        }),
{
    match cursor {
        Some(c) => Some(c.get_position()),
        None => None,
    }
}

/// Whether `button` is down; no button is down while there is no mouse.
pub fn is_mouse_button_pressed(mouse: Option<&PS2Mouse>, button: MouseButton) -> (r: bool)
    ensures
        r == (match mouse {
            Some(m) => match button {
                MouseButton::Left => m.left_button,
                MouseButton::Right => m.right_button,
                MouseButton::Middle => m.middle_button,
            },
            None => false,
        }),
{
    match mouse {
        Some(m) => match button {
            MouseButton::Left => m.is_left_clicked(),
            MouseButton::Right => m.is_right_clicked(),
            MouseButton::Middle => m.middle_button,
        },
        None => false,
    }
}

/// Command to the keyboard controller: switch the mouse port on.
pub const CMD_ENABLE_MOUSE_PORT: u8 = 0xA8;

/// Command to the keyboard controller: hand over the configuration byte.
pub const CMD_READ_CONFIG: u8 = 0x20;

/// Command to the keyboard controller: take a new configuration byte.
pub const CMD_WRITE_CONFIG: u8 = 0x60;

/// Command to the keyboard controller: pass the next byte on to the
/// mouse.
pub const CMD_TO_MOUSE: u8 = 0xD4;

/// Command to the mouse: reset.
pub const MOUSE_RESET: u8 = 0xFF;

/// Command to the mouse: take the default settings.
pub const MOUSE_SET_DEFAULTS: u8 = 0xF6;

/// Command to the mouse: start reporting.
pub const MOUSE_ENABLE_REPORTING: u8 = 0xF4;

/// What the mouse answers to a command it has taken.
pub const MOUSE_ACK: u8 = 0xFA;

/// What the mouse answers after a reset that went well.
pub const MOUSE_SELF_TEST_PASSED: u8 = 0xAA;

/// Status reads after which a wait for the controller is given up.
pub const HANDSHAKE_TRIES: u32 = 10000;

/// Whether `status` says that the controller can take a byte.
pub fn controller_ready(status: u8) -> (r: bool)
    ensures
        r == (status & 0x02 == 0),
{
    (status & 0x02) == 0
}

/// Whether `status` says that the controller has a byte to hand over.
pub fn data_ready(status: u8) -> (r: bool)
    ensures
        r == (status & 0x01 != 0),
{
    (status & 0x01) != 0
}

/// The configuration byte with the mouse interrupt and the keyboard
/// interrupt switched on and the clock of the mouse running, the other
/// bits as they were.
pub fn mouse_config(config: u8) -> (r: u8)
    ensures
        r == ((config | 0x02) & !0x20u8) | 0x01,
        r & 0x02 != 0,
        r & 0x01 != 0,
        r & 0x20 == 0,
{
    assert((((config | 0x02u8) & !0x20u8) | 0x01u8) & 0x02u8 != 0 && (((config | 0x02u8) & !0x20u8)
        | 0x01u8) & 0x01u8 != 0 && (((config | 0x02u8) & !0x20u8) | 0x01u8) & 0x20u8 == 0)
        by (bit_vector);
    ((config | 0x02) & !0x20) | 0x01
}

/// Whether the mouse has taken a command.
pub fn command_acknowledged(response: u8) -> (r: bool)
    ensures
        r == (response == MOUSE_ACK),
{
    response == MOUSE_ACK
}

/// Whether the mouse has come through its reset.
pub fn self_test_passed(response: u8) -> (r: bool)
    ensures
        r == (response == MOUSE_SELF_TEST_PASSED),
{
    response == MOUSE_SELF_TEST_PASSED
}

/// How a wait for the hardware goes on after one look at it.
#[derive(Copy, Clone, Debug, PartialEq, Eq, Structural)]
pub enum WaitStep {
    /// The hardware is ready.
    Ready,
    /// It is not; look again.
    Again,
    /// It is not, and the tries are used up. The caller goes on as if it
    /// were.
    GaveUp,
}

/// A wait that looks at the hardware a bounded number of times.
#[derive(Copy, Clone, Debug, PartialEq, Eq, Structural)]
pub struct BusyWait {
    pub remaining: u32,
}

impl BusyWait {
    /// A wait of at most `tries` looks.
    pub fn new(tries: u32) -> (r: Self)
        ensures
            r.remaining == tries,
    {
        BusyWait { remaining: tries }
    }

    /// The wait after one look: over when the hardware was ready or no
    /// try was left, one try shorter otherwise.
    pub open spec fn after(self, ready: bool) -> (BusyWait, WaitStep) {
        if self.remaining == 0 {
            (self, WaitStep::GaveUp)
        } else if ready {
            (self, WaitStep::Ready)
        } else if self.remaining == 1 {
            (BusyWait { remaining: 0 }, WaitStep::GaveUp)
        } else {
            (BusyWait { remaining: (self.remaining - 1) as u32 }, WaitStep::Again)
        }
    }

    /// Takes one look; `ready` is what the look has shown.
    pub fn poll(&mut self, ready: bool) -> (r: WaitStep)
        ensures
            (*final(self), r) == old(self).after(ready),
            r == WaitStep::Again ==> final(self).remaining < old(self).remaining,
    {
        if self.remaining == 0 {
            WaitStep::GaveUp
        } else if ready {
            WaitStep::Ready
        } else {
            self.remaining = self.remaining - 1;
            if self.remaining == 0 {
                WaitStep::GaveUp
            } else {
                WaitStep::Again
            }
        }
    }
}

/// Reads of the status register after which the emptying of the buffer
/// ends, whatever is left in it.
pub const FLUSH_TRIES: u32 = 10;

/// One step of the talk with the keyboard controller and the mouse
/// behind it.
#[derive(Copy, Clone, Debug, PartialEq, Eq, Structural)]
pub enum MouseStep {
    /// Wait until the controller can take a byte, then write this byte
    /// to its command port.
    Command(u8),
    /// Wait until the controller can take a byte, then write this byte
    /// to its data port.
    Data(u8),
    /// Wait until a byte is there, then read it from the data port.
    Read,
    /// Read bytes of the mouse from the data port as long as there are
    /// any, `FLUSH_TRIES` times at most.
    Flush,
}

/// The steps that send `command` to the mouse and take its answer.
pub open spec fn command_steps(command: u8) -> Seq<MouseStep> {
    seq![MouseStep::Command(CMD_TO_MOUSE), MouseStep::Data(command), MouseStep::Read]
}

/// The steps that reset the mouse: the command with its answer, then the
/// result of the self test, then the kind of mouse.
pub open spec fn reset_steps() -> Seq<MouseStep> {
    command_steps(MOUSE_RESET) + seq![MouseStep::Read, MouseStep::Read]
}

/// The steps with which the set-up begins: the mouse port is switched on
/// and the configuration byte asked for and read.
pub open spec fn init_first_steps() -> Seq<MouseStep> {
    seq![
        MouseStep::Command(CMD_ENABLE_MOUSE_PORT),
        MouseStep::Command(CMD_READ_CONFIG),
        MouseStep::Read,
    ]
}

/// The steps that follow once the configuration byte `config` has been
/// read: the byte goes back with the mouse switched on and is read once
/// more, the buffer is emptied, the mouse is reset, takes its default
/// settings and starts to report.
pub open spec fn init_steps(config: u8) -> Seq<MouseStep> {
    seq![
        MouseStep::Command(CMD_WRITE_CONFIG),
        MouseStep::Data(((config | 0x02) & !0x20u8) | 0x01),
        MouseStep::Command(CMD_READ_CONFIG),
        MouseStep::Read,
        MouseStep::Flush,
    ] + reset_steps() + command_steps(MOUSE_SET_DEFAULTS) + command_steps(MOUSE_ENABLE_REPORTING)
}

impl PS2Mouse {
    /// The steps that send `command` to the mouse and take its answer.
    pub fn send_mouse_command(command: u8) -> (r: [MouseStep; 3])
        ensures
            r@ == command_steps(command),
    {
        let r = [MouseStep::Command(CMD_TO_MOUSE), MouseStep::Data(command), MouseStep::Read];
        assert(r@ =~= command_steps(command));
        r
    }

    /// The steps that reset the mouse.
    pub fn send_reset_command() -> (r: [MouseStep; 5])
        ensures
            r@ == reset_steps(),
    {
        let r = [
            MouseStep::Command(CMD_TO_MOUSE),
            MouseStep::Data(MOUSE_RESET),
            MouseStep::Read,
            MouseStep::Read,
            MouseStep::Read,
        ];
        assert(r@ =~= reset_steps());
        r
    }

    /// The steps with which the set-up begins; the byte read last is the
    /// configuration byte.
    pub fn init_first() -> (r: [MouseStep; 3])
        ensures
            r@ == init_first_steps(),
    {
        let r = [
            MouseStep::Command(CMD_ENABLE_MOUSE_PORT),
            MouseStep::Command(CMD_READ_CONFIG),
            MouseStep::Read,
        ];
        assert(r@ =~= init_first_steps());
        r
    }

    /// The steps that follow once the configuration byte `config` has been
    /// read.
    pub fn init(config: u8) -> (r: [MouseStep; 16])
        ensures
            r@ == init_steps(config),
    {
        let r = [
            MouseStep::Command(CMD_WRITE_CONFIG),
            MouseStep::Data(mouse_config(config)),
            MouseStep::Command(CMD_READ_CONFIG),
            MouseStep::Read,
            MouseStep::Flush,
            MouseStep::Command(CMD_TO_MOUSE),
            MouseStep::Data(MOUSE_RESET),
            MouseStep::Read,
            MouseStep::Read,
            MouseStep::Read,
            MouseStep::Command(CMD_TO_MOUSE),
            MouseStep::Data(MOUSE_SET_DEFAULTS),
            MouseStep::Read,
            MouseStep::Command(CMD_TO_MOUSE),
            MouseStep::Data(MOUSE_ENABLE_REPORTING),
            MouseStep::Read,
        ];
        assert(r@ =~= init_steps(config));
        r
    }
}

} // verus!
