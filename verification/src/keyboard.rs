//! The keyboard: what its controller says, what its scancodes stand for,
//! and the state of its modifier and lock keys.

use vstd::prelude::*;

verus! {

/// Status port of the keyboard controller.
pub const KBD_STATUS: u16 = 0x64;

/// Data port of the keyboard controller.
pub const KBD_DATA: u16 = 0x60;

/// The four arrow keys.
#[derive(Copy, Clone, Debug, PartialEq, Eq, Structural)]
pub enum ArrowKey {
    Up,
    Down,
    Left,
    Right,
}

/// Whether `status` says that a byte is waiting in the output buffer.
pub fn has_data(status: u8) -> (r: bool)
    ensures
        r == (status & 1 != 0),
{
    (status & 1) != 0
}

/// The scancode to take, given the status byte and the byte at the data
/// port: the data byte if the status says it is there, else none.
pub fn read_scancode_nonblock(status: u8, data: u8) -> (r: Option<u8>)
    ensures
        r == (if status & 1 != 0 {
            Some(data)
        } else {
            None
        }),
{
    if has_data(status) {
        Some(data)
    } else {
        None
    }
}

/// The arrow key behind an extended scancode, if it is one.
pub fn arrow_key(scancode: u8) -> (r: Option<ArrowKey>)
    ensures
        r == (if scancode == 0x48 {
            Some(ArrowKey::Up)
        } else if scancode == 0x50 {
            Some(ArrowKey::Down)
        } else if scancode == 0x4B {
            Some(ArrowKey::Left)
        } else if scancode == 0x4D {
            Some(ArrowKey::Right)
        } else {
            None
        }),
{
    if scancode == 0x48 {
        Some(ArrowKey::Up)
    } else if scancode == 0x50 {
        Some(ArrowKey::Down)
    } else if scancode == 0x4B {
        Some(ArrowKey::Left)
    } else if scancode == 0x4D {
        Some(ArrowKey::Right)
    } else {
        None
    }
}

/// The character on each key of scancode set 1, without shift; zero where
/// a key has none.
pub open spec fn plain_table() -> Seq<u8> {
    seq![
        0x00u8, 0x00u8, 0x31u8, 0x32u8, 0x33u8, 0x34u8, 0x35u8, 0x36u8,
        0x37u8, 0x38u8, 0x39u8, 0x30u8, 0x2Du8, 0x3Du8, 0x00u8, 0x00u8,
        0x71u8, 0x77u8, 0x65u8, 0x72u8, 0x74u8, 0x79u8, 0x75u8, 0x69u8,
        0x6Fu8, 0x70u8, 0x5Bu8, 0x5Du8, 0x00u8, 0x00u8, 0x61u8, 0x73u8,
        0x64u8, 0x66u8, 0x67u8, 0x68u8, 0x6Au8, 0x6Bu8, 0x6Cu8, 0x3Bu8,
        0x27u8, 0x60u8, 0x00u8, 0x5Cu8, 0x7Au8, 0x78u8, 0x63u8, 0x76u8,
        0x62u8, 0x6Eu8, 0x6Du8, 0x2Cu8, 0x2Eu8, 0x2Fu8, 0x00u8, 0x2Au8,
        0x00u8, 0x20u8, 0x00u8, 0x00u8, 0x00u8, 0x00u8, 0x00u8, 0x00u8,
        0x00u8, 0x00u8, 0x00u8, 0x00u8, 0x00u8, 0x00u8, 0x00u8, 0x37u8,
        0x38u8, 0x39u8, 0x2Du8, 0x34u8, 0x35u8, 0x36u8, 0x2Bu8, 0x31u8,
        0x32u8, 0x33u8, 0x30u8, 0x2Eu8, 0x00u8, 0x00u8, 0x00u8, 0x00u8,
        0x00u8, 0x00u8, 0x00u8, 0x00u8, 0x00u8, 0x00u8, 0x00u8, 0x00u8,
        0x00u8, 0x00u8, 0x00u8, 0x00u8, 0x00u8, 0x00u8, 0x00u8, 0x00u8,
        0x00u8, 0x00u8, 0x00u8, 0x00u8, 0x00u8, 0x00u8, 0x00u8, 0x00u8,
        0x00u8, 0x00u8, 0x00u8, 0x00u8, 0x00u8, 0x00u8, 0x00u8, 0x00u8,
        0x00u8, 0x00u8, 0x00u8, 0x00u8, 0x00u8, 0x00u8, 0x00u8, 0x00u8,
    ]
}

/// The character on each key with shift held down.
pub open spec fn shifted_table() -> Seq<u8> {
    seq![
        0x00u8, 0x00u8, 0x21u8, 0x40u8, 0x23u8, 0x24u8, 0x25u8, 0x5Eu8,
        0x26u8, 0x2Au8, 0x28u8, 0x29u8, 0x5Fu8, 0x2Bu8, 0x00u8, 0x00u8,
        0x51u8, 0x57u8, 0x45u8, 0x52u8, 0x54u8, 0x59u8, 0x55u8, 0x49u8,
        0x4Fu8, 0x50u8, 0x7Bu8, 0x7Du8, 0x00u8, 0x00u8, 0x41u8, 0x53u8,
        0x44u8, 0x46u8, 0x47u8, 0x48u8, 0x4Au8, 0x4Bu8, 0x4Cu8, 0x3Au8,
        0x22u8, 0x7Eu8, 0x00u8, 0x7Cu8, 0x5Au8, 0x58u8, 0x43u8, 0x56u8,
        0x42u8, 0x4Eu8, 0x4Du8, 0x3Cu8, 0x3Eu8, 0x3Fu8, 0x00u8, 0x2Au8,
        0x00u8, 0x20u8, 0x00u8, 0x00u8, 0x00u8, 0x00u8, 0x00u8, 0x00u8,
        0x00u8, 0x00u8, 0x00u8, 0x00u8, 0x00u8, 0x00u8, 0x00u8, 0x37u8,
        0x38u8, 0x39u8, 0x2Du8, 0x34u8, 0x35u8, 0x36u8, 0x2Bu8, 0x31u8,
        0x32u8, 0x33u8, 0x30u8, 0x2Eu8, 0x00u8, 0x00u8, 0x00u8, 0x00u8,
        0x00u8, 0x00u8, 0x00u8, 0x00u8, 0x00u8, 0x00u8, 0x00u8, 0x00u8,
        0x00u8, 0x00u8, 0x00u8, 0x00u8, 0x00u8, 0x00u8, 0x00u8, 0x00u8,
        0x00u8, 0x00u8, 0x00u8, 0x00u8, 0x00u8, 0x00u8, 0x00u8, 0x00u8,
        0x00u8, 0x00u8, 0x00u8, 0x00u8, 0x00u8, 0x00u8, 0x00u8, 0x00u8,
        0x00u8, 0x00u8, 0x00u8, 0x00u8, 0x00u8, 0x00u8, 0x00u8, 0x00u8,
    ]
}

/// The table without shift, as an array.
pub fn scancode_to_ascii_table() -> (r: [u8; 128])
    ensures
        r@ == plain_table(),
{
    let r: [u8; 128] = [
        0x00, 0x00, 0x31, 0x32, 0x33, 0x34, 0x35, 0x36,
        0x37, 0x38, 0x39, 0x30, 0x2D, 0x3D, 0x00, 0x00,
        0x71, 0x77, 0x65, 0x72, 0x74, 0x79, 0x75, 0x69,
        0x6F, 0x70, 0x5B, 0x5D, 0x00, 0x00, 0x61, 0x73,
        0x64, 0x66, 0x67, 0x68, 0x6A, 0x6B, 0x6C, 0x3B,
        0x27, 0x60, 0x00, 0x5C, 0x7A, 0x78, 0x63, 0x76,
        0x62, 0x6E, 0x6D, 0x2C, 0x2E, 0x2F, 0x00, 0x2A,
        0x00, 0x20, 0x00, 0x00, 0x00, 0x00, 0x00, 0x00,
        0x00, 0x00, 0x00, 0x00, 0x00, 0x00, 0x00, 0x37,
        0x38, 0x39, 0x2D, 0x34, 0x35, 0x36, 0x2B, 0x31,
        0x32, 0x33, 0x30, 0x2E, 0x00, 0x00, 0x00, 0x00,
        0x00, 0x00, 0x00, 0x00, 0x00, 0x00, 0x00, 0x00,
        0x00, 0x00, 0x00, 0x00, 0x00, 0x00, 0x00, 0x00,
        0x00, 0x00, 0x00, 0x00, 0x00, 0x00, 0x00, 0x00,
        0x00, 0x00, 0x00, 0x00, 0x00, 0x00, 0x00, 0x00,
        0x00, 0x00, 0x00, 0x00, 0x00, 0x00, 0x00, 0x00,
    ];
    assert(r@ =~= plain_table());
    r
}

/// The table with shift, as an array.
pub fn scancode_to_ascii_shift_table() -> (r: [u8; 128])
    ensures
        r@ == shifted_table(),
{
    let r: [u8; 128] = [
        0x00, 0x00, 0x21, 0x40, 0x23, 0x24, 0x25, 0x5E,
        0x26, 0x2A, 0x28, 0x29, 0x5F, 0x2B, 0x00, 0x00,
        0x51, 0x57, 0x45, 0x52, 0x54, 0x59, 0x55, 0x49,
        0x4F, 0x50, 0x7B, 0x7D, 0x00, 0x00, 0x41, 0x53,
        0x44, 0x46, 0x47, 0x48, 0x4A, 0x4B, 0x4C, 0x3A,
        0x22, 0x7E, 0x00, 0x7C, 0x5A, 0x58, 0x43, 0x56,
        0x42, 0x4E, 0x4D, 0x3C, 0x3E, 0x3F, 0x00, 0x2A,
        0x00, 0x20, 0x00, 0x00, 0x00, 0x00, 0x00, 0x00,
        0x00, 0x00, 0x00, 0x00, 0x00, 0x00, 0x00, 0x37,
        0x38, 0x39, 0x2D, 0x34, 0x35, 0x36, 0x2B, 0x31,
        0x32, 0x33, 0x30, 0x2E, 0x00, 0x00, 0x00, 0x00,
        0x00, 0x00, 0x00, 0x00, 0x00, 0x00, 0x00, 0x00,
        0x00, 0x00, 0x00, 0x00, 0x00, 0x00, 0x00, 0x00,
        0x00, 0x00, 0x00, 0x00, 0x00, 0x00, 0x00, 0x00,
        0x00, 0x00, 0x00, 0x00, 0x00, 0x00, 0x00, 0x00,
        0x00, 0x00, 0x00, 0x00, 0x00, 0x00, 0x00, 0x00,
    ];
    assert(r@ =~= shifted_table());
    r
}

/// Make code of Escape.
pub const SC_ESCAPE: u8 = 0x01;

/// Make code of Backspace.
pub const SC_BACKSPACE: u8 = 0x0E;

/// Make code of Tab.
pub const SC_TAB: u8 = 0x0F;

/// Make code of Enter.
pub const SC_ENTER: u8 = 0x1C;

/// Make code of Ctrl.
pub const SC_CTRL: u8 = 0x1D;

/// Make code of the left Shift.
pub const SC_LSHIFT: u8 = 0x2A;

/// Make code of the right Shift.
pub const SC_RSHIFT: u8 = 0x36;

/// Make code of Alt.
pub const SC_ALT: u8 = 0x38;

/// Make code of Caps Lock.
pub const SC_CAPSLOCK: u8 = 0x3A;

/// Make code of Num Lock.
pub const SC_NUMLOCK: u8 = 0x45;

/// Make code of Scroll Lock.
pub const SC_SCROLLLOCK: u8 = 0x46;

/// The byte that announces an extended scancode.
pub const SC_EXTENDED: u8 = 0xE0;

/// Bytes of a line that the keyboard keeps.
pub const INPUT_BUFFER_SIZE: usize = 256;

/// What a scancode has brought about.
#[derive(Copy, Clone, Debug, PartialEq, Eq, Structural)]
pub enum KeyEvent {
    /// A release, a modifier, the prefix of an extended code, or a key
    /// that stands for nothing.
    Nothing,
    /// A lock key was pressed: the lamps of the keyboard have to show
    /// this state.
    Leds(u8),
    Escape,
    Backspace,
    Tab,
    /// Enter was pressed; the line it ended can be read from the state.
    Enter,
    Arrow(ArrowKey),
    /// A character was typed.
    Char(u8),
}

/// The mathematical state of the keyboard.
pub struct KeyboardView {
    pub shift: bool,
    pub ctrl: bool,
    pub alt: bool,
    pub caps_lock: bool,
    pub num_lock: bool,
    pub scroll_lock: bool,
    /// The last byte was the prefix of an extended code.
    pub extended: bool,
    /// The characters typed since the last Enter.
    pub buffer: Seq<u8>,
    /// The line that the last Enter ended.
    pub line: Seq<u8>,
}

/// Whether `ch` is a small letter.
pub open spec fn is_lower(ch: u8) -> bool {
    0x61 <= ch <= 0x7A
}

/// Whether `ch` is a capital letter.
pub open spec fn is_upper(ch: u8) -> bool {
    0x41 <= ch <= 0x5A
}

impl KeyboardView {
    pub open spec fn wf(self) -> bool {
        self.buffer.len() < INPUT_BUFFER_SIZE && self.line.len() < INPUT_BUFFER_SIZE
    }

    /// The state of the three lamps: scroll lock, num lock, caps lock.
    pub open spec fn leds(self) -> u8 {
        ((if self.scroll_lock {
            1int
        } else {
            0int
        }) + (if self.num_lock {
            2int
        } else {
            0int
        }) + (if self.caps_lock {
            4int
        } else {
            0int
        })) as u8
    }

    /// The character that make code `sc` stands for in this state: the
    /// table entry for the shift state, its case swapped under caps lock,
    /// and turned into a control character under Ctrl.
    pub open spec fn ascii(self, sc: u8) -> Option<u8> {
        if sc >= 128 {
            None
        } else {
            let looked_up = if self.shift {
                shifted_table()[sc as int]
            } else {
                plain_table()[sc as int]
            };
            if looked_up == 0 {
                None
            } else {
                let cased = if self.caps_lock && is_lower(looked_up) {
                    (looked_up - 0x20) as u8
                } else if self.caps_lock && is_upper(looked_up) {
                    (looked_up + 0x20) as u8
                } else {
                    looked_up
                };
                if self.ctrl && is_lower(cased) {
                    Some((cased - 0x60) as u8)
                } else if self.ctrl && is_upper(cased) {
                    Some((cased - 0x40) as u8)
                } else {
                    Some(cased)
                }
            }
        }
    }

    /// State and event for a modifier or lock key, `None` for any other
    /// key. Ctrl and Alt only count without the extended prefix.
    pub open spec fn modifier(self, sc: u8, release: bool, extended: bool) -> Option<
        (KeyboardView, KeyEvent),
    > {
        if sc == SC_LSHIFT || sc == SC_RSHIFT {
            Some((KeyboardView { shift: !release, ..self }, KeyEvent::Nothing))
        } else if sc == SC_CTRL {
            Some(
                (
                    if !extended {
                        KeyboardView { ctrl: !release, ..self }
                    } else {
                        self
                    },
                    KeyEvent::Nothing,
                ),
            )
        } else if sc == SC_ALT {
            Some(
                (
                    if !extended {
                        KeyboardView { alt: !release, ..self }
                    } else {
                        self
                    },
                    KeyEvent::Nothing,
                ),
            )
        } else if sc == SC_CAPSLOCK || sc == SC_NUMLOCK || sc == SC_SCROLLLOCK {
            if release {
                Some((self, KeyEvent::Nothing))
            } else {
                let toggled = if sc == SC_CAPSLOCK {
                    KeyboardView { caps_lock: !self.caps_lock, ..self }
                } else if sc == SC_NUMLOCK {
                    KeyboardView { num_lock: !self.num_lock, ..self }
                } else {
                    KeyboardView { scroll_lock: !self.scroll_lock, ..self }
                };
                Some((toggled, KeyEvent::Leds(toggled.leds())))
            }
        } else {
            None
        }
    }

    /// The state after `ch` has been added to the line; a full line takes
    /// no more.
    pub open spec fn typed(self, ch: u8) -> KeyboardView {
        if self.buffer.len() < INPUT_BUFFER_SIZE - 1 {
            KeyboardView { buffer: self.buffer.push(ch), ..self }
        } else {
            self
        }
    }

    /// State and event for the press of a key that is no modifier.
    pub open spec fn pressed(self, sc: u8, extended: bool) -> (KeyboardView, KeyEvent) {
        if sc == SC_ESCAPE {
            (self, KeyEvent::Escape)
        } else if sc == SC_BACKSPACE {
            (
                if self.buffer.len() > 0 {
                    KeyboardView { buffer: self.buffer.drop_last(), ..self }
                } else {
                    self
                },
                KeyEvent::Backspace,
            )
        } else if sc == SC_TAB {
            (self, KeyEvent::Tab)
        } else if sc == SC_ENTER {
            (KeyboardView { line: self.buffer, buffer: Seq::empty(), ..self }, KeyEvent::Enter)
        } else if extended {
            (
                self,
                if sc == 0x48 {
                    KeyEvent::Arrow(ArrowKey::Up)
                } else if sc == 0x50 {
                    KeyEvent::Arrow(ArrowKey::Down)
                } else if sc == 0x4B {
                    KeyEvent::Arrow(ArrowKey::Left)
                } else if sc == 0x4D {
                    KeyEvent::Arrow(ArrowKey::Right)
                } else {
                    KeyEvent::Nothing
                },
            )
        } else {
            match self.ascii(sc) {
                Some(ch) => (self.typed(ch), KeyEvent::Char(ch)),
                None => (self, KeyEvent::Nothing),
            }
        }
    }

    /// State and event for one byte from the keyboard.
    pub open spec fn process(self, scancode: u8) -> (KeyboardView, KeyEvent) {
        if scancode == SC_EXTENDED {
            (KeyboardView { extended: true, ..self }, KeyEvent::Nothing)
        } else {
            let release = scancode >= 0x80;
            let sc = if release {
                (scancode - 0x80) as u8
            } else {
                scancode
            };
            let cleared = KeyboardView { extended: false, ..self };
            match cleared.modifier(sc, release, self.extended) {
                Some(done) => done,
                None => if release {
                    (cleared, KeyEvent::Nothing)
                } else {
                    cleared.pressed(sc, self.extended)
                },
            }
        }
    }
}

pub struct KeyboardState {
    shift_pressed: bool,
    ctrl_pressed: bool,
    alt_pressed: bool,
    caps_lock: bool,
    num_lock: bool,
    scroll_lock: bool,
    extended_code: bool,
    input_buffer: [u8; 256],
    buffer_pos: usize,
    line: [u8; 256],
    line_len: usize,
}

impl View for KeyboardState {
    type V = KeyboardView;

    closed spec fn view(&self) -> KeyboardView {
        KeyboardView {
            shift: self.shift_pressed,
            ctrl: self.ctrl_pressed,
            alt: self.alt_pressed,
            caps_lock: self.caps_lock,
            num_lock: self.num_lock,
            scroll_lock: self.scroll_lock,
            extended: self.extended_code,
            buffer: self.input_buffer@.take(self.buffer_pos as int),
            line: self.line@.take(self.line_len as int),
        }
    }
}

impl KeyboardState {
    #[verifier::type_invariant]
    spec fn inv(self) -> bool {
        self.buffer_pos < INPUT_BUFFER_SIZE && self.line_len < INPUT_BUFFER_SIZE
    }

    /// No key held, num lock on, nothing typed.
    pub fn new() -> (r: Self)
        ensures
            r@ == (KeyboardView {
                shift: false,
                ctrl: false,
                alt: false,
                caps_lock: false,
                num_lock: true,
                scroll_lock: false,
                extended: false,
                buffer: Seq::<u8>::empty(),
                line: Seq::<u8>::empty(),
            }),
    {
        let r = KeyboardState {
            shift_pressed: false,
            ctrl_pressed: false,
            alt_pressed: false,
            caps_lock: false,
            num_lock: true,
            scroll_lock: false,
            extended_code: false,
            input_buffer: [0; 256],
            buffer_pos: 0,
            line: [0; 256],
            line_len: 0,
        };
        assert(r@.buffer =~= Seq::<u8>::empty());
        assert(r@.line =~= Seq::<u8>::empty());
        r
    }

    /// Adds `ch` to the line, unless the line is full.
    pub fn add_to_buffer(&mut self, ch: u8)
        ensures
            final(self)@ == old(self)@.typed(ch),
    {
        proof {
            use_type_invariant(&*self);
        }
        if self.buffer_pos < 255 {
            self.input_buffer[self.buffer_pos] = ch;
            self.buffer_pos = self.buffer_pos + 1;
            assert(self@.buffer =~= old(self)@.buffer.push(ch));
        }
    }

    /// The characters typed since the last Enter.
    pub fn get_buffer(&self) -> (r: Vec<u8>)
        ensures
            r@ == self@.buffer,
            self@.wf(),
    {
        proof {
            use_type_invariant(self);
        }
        let mut out: Vec<u8> = Vec::new();
        let mut i: usize = 0;
        while i < self.buffer_pos
            invariant
                0 <= i <= self.buffer_pos < INPUT_BUFFER_SIZE,
                out@ == self.input_buffer@.take(i as int),
            decreases self.buffer_pos - i,
        {
            out.push(self.input_buffer[i]);
            assert(self.input_buffer@.take(i + 1) =~= self.input_buffer@.take(i as int).push(
                self.input_buffer@[i as int],
            ));
            i = i + 1;
        }
        out
    }

    /// The line that the last Enter ended.
    pub fn last_line(&self) -> (r: Vec<u8>)
        ensures
            r@ == self@.line,
    {
        proof {
            use_type_invariant(self);
        }
        let mut out: Vec<u8> = Vec::new();
        let mut i: usize = 0;
        while i < self.line_len
            invariant
                0 <= i <= self.line_len < INPUT_BUFFER_SIZE,
                out@ == self.line@.take(i as int),
            decreases self.line_len - i,
        {
            out.push(self.line[i]);
            assert(self.line@.take(i + 1) =~= self.line@.take(i as int).push(self.line@[i as int]));
            i = i + 1;
        }
        out
    }

    /// Forgets what has been typed.
    pub fn clear_buffer(&mut self)
        ensures
            final(self)@ == (KeyboardView { buffer: Seq::<u8>::empty(), ..old(self)@ }),
    {
        proof {
            use_type_invariant(&*self);
        }
        self.buffer_pos = 0;
        assert(self@.buffer =~= Seq::<u8>::empty());
    }

    pub fn is_shift_pressed(&self) -> (r: bool)
        ensures
            r == self@.shift,
    {
        self.shift_pressed
    }

    pub fn is_ctrl_pressed(&self) -> (r: bool)
        ensures
            r == self@.ctrl,
    {
        self.ctrl_pressed
    }

    pub fn is_alt_pressed(&self) -> (r: bool)
        ensures
            r == self@.alt,
    {
        self.alt_pressed
    }

    pub fn is_caps_lock_on(&self) -> (r: bool)
        ensures
            r == self@.caps_lock,
    {
        self.caps_lock
    }

    /// The state of the three lamps, as the keyboard takes it.
    pub fn led_state(&self) -> (r: u8)
        ensures
            r == self@.leds(),
    {
        let mut leds: u8 = 0;
        if self.scroll_lock {
            leds = leds + 1;
        }
        if self.num_lock {
            leds = leds + 2;
        }
        if self.caps_lock {
            leds = leds + 4;
        }
        leds
    }

    /// The character that make code `scancode` stands for in the present
    /// state of Shift, Caps Lock and Ctrl.
    pub fn scancode_to_ascii(&self, scancode: u8) -> (r: Option<u8>)
        ensures
            r == self@.ascii(scancode),
    {
        if scancode >= 128 {
            return None;
        }
        let looked_up: u8 = if self.shift_pressed {
            scancode_to_ascii_shift_table()[scancode as usize]
        } else {
            scancode_to_ascii_table()[scancode as usize]
        };
        if looked_up == 0 {
            return None;
        }
        let mut ch: u8 = looked_up;
        if self.caps_lock {
            if 0x61 <= ch && ch <= 0x7A {
                ch = ch - 0x20;
            } else if 0x41 <= ch && ch <= 0x5A {
                ch = ch + 0x20;
            }
        }
        if self.ctrl_pressed {
            if 0x61 <= ch && ch <= 0x7A {
                ch = ch - 0x60;
            } else if 0x41 <= ch && ch <= 0x5A {
                ch = ch - 0x40;
            }
        }
        Some(ch)
    }

    /// Takes a modifier or lock key; `None` for any other key.
    fn handle_modifier_keys(&mut self, scancode: u8, is_release: bool, is_extended: bool) -> (r:
        Option<KeyEvent>)
        ensures
            match old(self)@.modifier(scancode, is_release, is_extended) {
                Some((state, event)) => final(self)@ == state && r == Some(event),
                None => final(self)@ == old(self)@ && r is None,
            },
    {
        proof {
            use_type_invariant(&*self);
        }
        if scancode == SC_LSHIFT || scancode == SC_RSHIFT {
            self.shift_pressed = !is_release;
            Some(KeyEvent::Nothing)
        } else if scancode == SC_CTRL {
            if !is_extended {
                self.ctrl_pressed = !is_release;
            }
            Some(KeyEvent::Nothing)
        } else if scancode == SC_ALT {
            if !is_extended {
                self.alt_pressed = !is_release;
            }
            Some(KeyEvent::Nothing)
        } else if scancode == SC_CAPSLOCK || scancode == SC_NUMLOCK || scancode == SC_SCROLLLOCK {
            if is_release {
                return Some(KeyEvent::Nothing);
            }
            if scancode == SC_CAPSLOCK {
                self.caps_lock = !self.caps_lock;
            } else if scancode == SC_NUMLOCK {
                self.num_lock = !self.num_lock;
            } else {
                self.scroll_lock = !self.scroll_lock;
            }
            Some(KeyEvent::Leds(self.led_state()))
        } else {
            None
        }
    }

    /// Takes the press of a key that is no modifier.
    fn handle_key_press(&mut self, scancode: u8, is_extended: bool) -> (r: KeyEvent)
        ensures
            (final(self)@, r) == old(self)@.pressed(scancode, is_extended),
    {
        proof {
            use_type_invariant(&*self);
        }
        if scancode == SC_ESCAPE {
            KeyEvent::Escape
        } else if scancode == SC_BACKSPACE {
            if self.buffer_pos > 0 {
                self.buffer_pos = self.buffer_pos - 1;
                assert(self@.buffer =~= old(self)@.buffer.drop_last());
            }
            KeyEvent::Backspace
        } else if scancode == SC_TAB {
            KeyEvent::Tab
        } else if scancode == SC_ENTER {
            self.line = self.input_buffer;
            self.line_len = self.buffer_pos;
            self.buffer_pos = 0;
            proof {
                assert(self@.buffer =~= Seq::<u8>::empty());
                assert(self@.line =~= old(self)@.buffer);
            }
            KeyEvent::Enter
        } else if is_extended {
            match arrow_key(scancode) {
                Some(key) => KeyEvent::Arrow(key),
                None => KeyEvent::Nothing,
            }
        } else {
            match self.scancode_to_ascii(scancode) {
                Some(ch) => {
                    self.add_to_buffer(ch);
                    KeyEvent::Char(ch)
                },
                None => KeyEvent::Nothing,
            }
        }
    }

    /// Takes one byte from the keyboard.
    pub fn process_scancode(&mut self, scancode: u8) -> (r: KeyEvent)
        ensures
            (final(self)@, r) == old(self)@.process(scancode),
    {
        proof {
            use_type_invariant(&*self);
        }
        if scancode == SC_EXTENDED {
            self.extended_code = true;
            return KeyEvent::Nothing;
        }
        let is_extended = self.extended_code;
        self.extended_code = false;
        let is_release = scancode >= 0x80;
        let code: u8 = if is_release {
            scancode - 0x80
        } else {
            scancode
        };
        match self.handle_modifier_keys(code, is_release, is_extended) {
            Some(event) => event,
            None => {
                if is_release {
                    KeyEvent::Nothing
                } else {
                    self.handle_key_press(code, is_extended)
                }
            },
        }
    }
}

/// Whether `status` says that a byte is waiting and that it comes from
/// the keyboard, not from the mouse.
pub fn keyboard_data_pending(status: u8) -> (r: bool)
    ensures
        r == (status & 0x01 != 0 && status & 0x20 == 0),
{
    (status & 0x01) != 0 && (status & 0x20) == 0
}

/// The bytes that make the keyboard show `led_state` on its lamps: the
/// command, then the state, both for the data port.
pub fn update_keyboard_leds(led_state: u8) -> (r: [u8; 2])
    ensures
        r[0] == 0xED,
        r[1] == led_state,
{
    [0xED, led_state]
}

} // verus!
