//! Driver for the pair of cascaded 8259 interrupt controllers.
//!
//! The driver works out which bytes go to which ports; sending them is up
//! to the caller. A small model of the two controllers says what those
//! bytes do, so that the driver can be held to it.

use vstd::prelude::*;

verus! {

/// Command port of the master controller.
pub const PIC1_COMMAND: u16 = 0x20;

/// Data port of the master controller.
pub const PIC1_DATA: u16 = 0x21;

/// Command port of the slave controller.
pub const PIC2_COMMAND: u16 = 0xA0;

/// Data port of the slave controller.
pub const PIC2_DATA: u16 = 0xA1;

/// The end-of-interrupt command.
pub const PIC_EOI: u8 = 0x20;

/// An unused port; a write to it takes long enough for a controller to
/// settle.
pub const WAIT_PORT: u16 = 0x80;

/// First command word: start initialisation, edge triggered, cascaded, a
/// fourth word follows.
pub const ICW1_INIT: u8 = 0x11;

/// Third command word of the master: a slave sits on line 2.
pub const ICW3_MASTER: u8 = 0x04;

/// Third command word of the slave: its cascade identity.
pub const ICW3_SLAVE: u8 = 0x02;

/// Fourth command word: 8086 mode.
pub const ICW4_8086: u8 = 0x01;

/// One byte written to one I/O port.
#[derive(Copy, Clone, Debug, PartialEq, Eq, Structural)]
pub struct PortWrite {
    pub port: u16,
    pub value: u8,
}

/// The write that only passes time.
pub open spec fn wait_write() -> PortWrite {
    PortWrite { port: WAIT_PORT, value: 0 }
}

/// The writes that acknowledge `irq`: for a line of the slave first its
/// own controller, then always the master, each followed by a wait.
pub open spec fn eoi_writes(irq: u8) -> Seq<PortWrite> {
    if irq >= 8 {
        seq![
            PortWrite { port: PIC2_COMMAND, value: PIC_EOI },
            wait_write(),
            PortWrite { port: PIC1_COMMAND, value: PIC_EOI },
            wait_write(),
        ]
    } else {
        seq![PortWrite { port: PIC1_COMMAND, value: PIC_EOI }, wait_write()]
    }
}

/// The writes that move the two controllers to new vector offsets and put
/// the line masks back: the four command words to each controller in
/// turn, then the masks, every write followed by a wait.
pub open spec fn remap_writes(master_offset: u8, slave_offset: u8, master_mask: u8, slave_mask: u8) -> Seq<
    PortWrite,
> {
    seq![
        PortWrite { port: PIC1_COMMAND, value: ICW1_INIT },
        wait_write(),
        PortWrite { port: PIC2_COMMAND, value: ICW1_INIT },
        wait_write(),
        PortWrite { port: PIC1_DATA, value: master_offset },
        wait_write(),
        PortWrite { port: PIC2_DATA, value: slave_offset },
        wait_write(),
        PortWrite { port: PIC1_DATA, value: ICW3_MASTER },
        wait_write(),
        PortWrite { port: PIC2_DATA, value: ICW3_SLAVE },
        wait_write(),
        PortWrite { port: PIC1_DATA, value: ICW4_8086 },
        wait_write(),
        PortWrite { port: PIC2_DATA, value: ICW4_8086 },
        wait_write(),
        PortWrite { port: PIC1_DATA, value: master_mask },
        wait_write(),
        PortWrite { port: PIC2_DATA, value: slave_mask },
        wait_write(),
    ]
}

/// The write that only passes time.
pub fn io_wait() -> (r: PortWrite)
    ensures
        r == wait_write(),
{
    PortWrite { port: WAIT_PORT, value: 0 }
}

/// The writes that acknowledge line `irq`.
pub fn send_eoi(irq: u8) -> (r: Vec<PortWrite>)
    ensures
        r@ == eoi_writes(irq),
{
    let mut out: Vec<PortWrite> = Vec::new();
    if irq >= 8 {
        out.push(PortWrite { port: PIC2_COMMAND, value: PIC_EOI });
        out.push(io_wait());
    }
    out.push(PortWrite { port: PIC1_COMMAND, value: PIC_EOI });
    out.push(io_wait());
    assert(out@ =~= eoi_writes(irq));
    out
}

/// The writes that remap the controllers to the given vector offsets and
/// restore the masks read before.
pub fn remap(master_offset: u8, slave_offset: u8, master_mask: u8, slave_mask: u8) -> (r: Vec<
    PortWrite,
>)
    ensures
        r@ == remap_writes(master_offset, slave_offset, master_mask, slave_mask),
{
    let mut out: Vec<PortWrite> = Vec::new();
    out.push(PortWrite { port: PIC1_COMMAND, value: ICW1_INIT });
    out.push(io_wait());
    out.push(PortWrite { port: PIC2_COMMAND, value: ICW1_INIT });
    out.push(io_wait());
    out.push(PortWrite { port: PIC1_DATA, value: master_offset });
    out.push(io_wait());
    out.push(PortWrite { port: PIC2_DATA, value: slave_offset });
    out.push(io_wait());
    out.push(PortWrite { port: PIC1_DATA, value: ICW3_MASTER });
    out.push(io_wait());
    out.push(PortWrite { port: PIC2_DATA, value: ICW3_SLAVE });
    out.push(io_wait());
    out.push(PortWrite { port: PIC1_DATA, value: ICW4_8086 });
    out.push(io_wait());
    out.push(PortWrite { port: PIC2_DATA, value: ICW4_8086 });
    out.push(io_wait());
    out.push(PortWrite { port: PIC1_DATA, value: master_mask });
    out.push(io_wait());
    out.push(PortWrite { port: PIC2_DATA, value: slave_mask });
    out.push(io_wait());
    assert(out@ =~= remap_writes(master_offset, slave_offset, master_mask, slave_mask));
    out
}

/// The writes that set the controllers up for this kernel: hardware lines
/// 0 to 7 at vectors 0x20 to 0x27, lines 8 to 15 at 0x28 to 0x2F.
pub fn init(master_mask: u8, slave_mask: u8) -> (r: Vec<PortWrite>)
    ensures
        r@ == remap_writes(0x20, 0x28, master_mask, slave_mask),
{
    remap(0x20, 0x28, master_mask, slave_mask)
}

/// The bit of `line` in the mask register of its controller.
pub open spec fn line_bit(line: u8) -> u8 {
    if line < 8 {
        1u8 << line
    } else {
        1u8 << ((line - 8) as u8)
    }
}

/// The data port of the controller that `line` belongs to.
pub open spec fn line_port(line: u8) -> u16 {
    if line < 8 {
        PIC1_DATA
    } else {
        PIC2_DATA
    }
}

/// The data port of the controller that `line` belongs to.
pub fn data_port(line: u8) -> (r: u16)
    ensures
        r == line_port(line),
{
    if line < 8 {
        PIC1_DATA
    } else {
        PIC2_DATA
    }
}

/// The write that masks `line`, given the mask register of its controller
/// as it is now.
pub fn mask_irq(line: u8, current_mask: u8) -> (r: PortWrite)
    requires
        line < 16,
    ensures
        r.port == line_port(line),
        r.value == current_mask | line_bit(line),
        r.value & line_bit(line) != 0,
        forall|other: u8|
            other < 16 && line_port(other) == line_port(line) && other != line ==> r.value
                & #[trigger] line_bit(other) == current_mask & line_bit(other),
{
    proof {
        lemma_mask_bits(current_mask, if line < 8 {
            line
        } else {
            (line - 8) as u8
        });
    }
    if line < 8 {
        PortWrite { port: PIC1_DATA, value: current_mask | (1u8 << line) }
    } else {
        PortWrite { port: PIC2_DATA, value: current_mask | (1u8 << (line - 8)) }
    }
}

/// The write that unmasks `line`, given the mask register of its
/// controller as it is now.
pub fn unmask_irq(line: u8, current_mask: u8) -> (r: PortWrite)
    requires
        line < 16,
    ensures
        r.port == line_port(line),
        r.value == current_mask & !line_bit(line),
        r.value & line_bit(line) == 0,
        forall|other: u8|
            other < 16 && line_port(other) == line_port(line) && other != line ==> r.value
                & #[trigger] line_bit(other) == current_mask & line_bit(other),
{
    proof {
        lemma_mask_bits(current_mask, if line < 8 {
            line
        } else {
            (line - 8) as u8
        });
    }
    if line < 8 {
        PortWrite { port: PIC1_DATA, value: current_mask & !(1u8 << line) }
    } else {
        PortWrite { port: PIC2_DATA, value: current_mask & !(1u8 << (line - 8)) }
    }
}

/// What masking and unmasking do to the bit of a line and to the others.
pub proof fn lemma_mask_bits(mask: u8, b: u8)
    by (bit_vector)
    requires
        b < 8,
    ensures
        (mask | (1u8 << b)) & (1u8 << b) != 0,
        (mask & !(1u8 << b)) & (1u8 << b) == 0,
        forall|c: u8|
            c < 8 && c != b ==> (mask | (1u8 << b)) & (1u8 << c) == mask & (1u8 << c) && (mask & !(1u8
                << b)) & (1u8 << c) == mask & (1u8 << c),
{
}

/// A mask register that does not hold what was written to it.
#[derive(Copy, Clone, Debug, PartialEq, Eq, Structural)]
pub struct MaskMismatch {
    pub port: u16,
    pub expected: u8,
    pub found: u8,
}

/// Holds what was read back from a mask register against the write that
/// went before.
pub fn verify_mask(written: PortWrite, found: u8) -> (r: Result<(), MaskMismatch>)
    ensures
        found == written.value ==> r is Ok,
        found != written.value ==> r == Err::<(), MaskMismatch>(
            MaskMismatch { port: written.port, expected: written.value, found },
        ),
{
    if found == written.value {
        Ok(())
    } else {
        Err(MaskMismatch { port: written.port, expected: written.value, found })
    }
}

/// Where a controller stands in its initialisation.
#[derive(Copy, Clone, Debug, PartialEq, Eq, Structural)]
pub enum InitPhase {
    /// Working: a data byte is a new line mask.
    Ready,
    /// The next data byte is the vector offset.
    AwaitOffset,
    /// The next data byte is the cascade wiring.
    AwaitCascade,
    /// The next data byte is the operating mode.
    AwaitMode,
}

/// Model of one controller: its registers as the driver sees them.
#[derive(Copy, Clone, Debug, PartialEq, Eq, Structural)]
pub struct Controller {
    /// Vector of line 0 of this controller.
    pub offset: u8,
    /// Line mask: a set bit silences its line.
    pub mask: u8,
    /// Cascade wiring as programmed.
    pub cascade: u8,
    /// Operating mode as programmed.
    pub mode: u8,
    /// Lines whose interrupt was delivered and not yet acknowledged.
    pub in_service: u8,
    pub phase: InitPhase,
}

impl Controller {
    /// The controller after a byte arrives at its command port: a byte
    /// with bit 4 set starts initialisation; the end-of-interrupt command
    /// takes the pending line of highest priority out of service, and
    /// does nothing when no line is pending; anything else is ignored.
    pub open spec fn after_command(self, value: u8) -> Controller {
        if value & 0x10 != 0 {
            Controller { mask: 0, in_service: 0, phase: InitPhase::AwaitOffset, ..self }
        } else if value == PIC_EOI {
            if self.in_service == 0 {
                self
            } else {
                Controller {
                    in_service: self.in_service & ((self.in_service - 1) as u8),
                    ..self
                }
            }
        } else {
            self
        }
    }

    /// The controller after a byte arrives at its data port.
    pub open spec fn after_data(self, value: u8) -> Controller {
        match self.phase {
            InitPhase::Ready => Controller { mask: value, ..self },
            InitPhase::AwaitOffset => Controller {
                offset: value,
                phase: InitPhase::AwaitCascade,
                ..self
            },
            InitPhase::AwaitCascade => Controller {
                cascade: value,
                phase: InitPhase::AwaitMode,
                ..self
            },
            InitPhase::AwaitMode => Controller { mode: value, phase: InitPhase::Ready, ..self },
        }
    }

    pub fn command(&mut self, value: u8)
        ensures
            *final(self) == old(self).after_command(value),
    {
        if value & 0x10 != 0 {
            self.mask = 0;
            self.in_service = 0;
            self.phase = InitPhase::AwaitOffset;
        } else if value == PIC_EOI {
            if self.in_service != 0 {
                self.in_service = self.in_service & (self.in_service - 1);
            }
        }
    }

    pub fn data(&mut self, value: u8)
        ensures
            *final(self) == old(self).after_data(value),
    {
        match self.phase {
            InitPhase::Ready => {
                self.mask = value;
            },
            InitPhase::AwaitOffset => {
                self.offset = value;
                self.phase = InitPhase::AwaitCascade;
            },
            InitPhase::AwaitCascade => {
                self.cascade = value;
                self.phase = InitPhase::AwaitMode;
            },
            InitPhase::AwaitMode => {
                self.mode = value;
                self.phase = InitPhase::Ready;
            },
        }
    }
}

/// Model of the cascaded pair.
#[derive(Copy, Clone, Debug, PartialEq, Eq, Structural)]
pub struct ControllerPair {
    pub master: Controller,
    pub slave: Controller,
}

impl ControllerPair {
    /// The pair after one write: the four ports of the controllers reach
    /// their registers, every other port reaches nothing.
    pub open spec fn after_write(self, w: PortWrite) -> ControllerPair {
        if w.port == PIC1_COMMAND {
            ControllerPair { master: self.master.after_command(w.value), ..self }
        } else if w.port == PIC1_DATA {
            ControllerPair { master: self.master.after_data(w.value), ..self }
        } else if w.port == PIC2_COMMAND {
            ControllerPair { slave: self.slave.after_command(w.value), ..self }
        } else if w.port == PIC2_DATA {
            ControllerPair { slave: self.slave.after_data(w.value), ..self }
        } else {
            self
        }
    }

    /// The pair after the first `n` of `writes`, in order.
    pub open spec fn after_writes(self, writes: Seq<PortWrite>, n: int) -> ControllerPair
        decreases n,
    {
        if n <= 0 {
            self
        } else {
            self.after_writes(writes, n - 1).after_write(writes[n - 1])
        }
    }

    /// The pair as it is after power-on, before the kernel has touched it:
    /// working, all lines masked, the offsets the firmware leaves.
    pub fn new() -> (r: Self)
        ensures
            r.master.phase == InitPhase::Ready,
            r.slave.phase == InitPhase::Ready,
            r.master.in_service == 0,
            r.slave.in_service == 0,
            r.master.mask == 0xFF,
            r.slave.mask == 0xFF,
            r.master.offset == 0x08,
            r.slave.offset == 0x70,
    {
        ControllerPair {
            master: Controller {
                offset: 0x08,
                mask: 0xFF,
                cascade: 0,
                mode: 0,
                in_service: 0,
                phase: InitPhase::Ready,
            },
            slave: Controller {
                offset: 0x70,
                mask: 0xFF,
                cascade: 0,
                mode: 0,
                in_service: 0,
                phase: InitPhase::Ready,
            },
        }
    }

    /// The pair after the interrupt of `line` has been delivered to the
    /// CPU: the line is in service on its controller, and for a line of
    /// the slave the cascade line 2 is in service on the master.
    pub open spec fn after_delivery(self, line: u8) -> ControllerPair {
        if line < 8 {
            ControllerPair {
                master: Controller {
                    in_service: self.master.in_service | (1u8 << line),
                    ..self.master
                },
                ..self
            }
        } else {
            ControllerPair {
                master: Controller { in_service: self.master.in_service | 4u8, ..self.master },
                slave: Controller {
                    in_service: self.slave.in_service | (1u8 << ((line - 8) as u8)),
                    ..self.slave
                },
            }
        }
    }

    /// Takes the interrupt of `line` into service.
    pub fn deliver(&mut self, line: u8)
        requires
            line < 16,
        ensures
            *final(self) == old(self).after_delivery(line),
    {
        if line < 8 {
            self.master.in_service = self.master.in_service | (1u8 << line);
        } else {
            self.master.in_service = self.master.in_service | 4u8;
            self.slave.in_service = self.slave.in_service | (1u8 << (line - 8));
        }
    }

    pub fn write(&mut self, w: PortWrite)
        ensures
            *final(self) == old(self).after_write(w),
    {
        if w.port == PIC1_COMMAND {
            self.master.command(w.value);
        } else if w.port == PIC1_DATA {
            self.master.data(w.value);
        } else if w.port == PIC2_COMMAND {
            self.slave.command(w.value);
        } else if w.port == PIC2_DATA {
            self.slave.data(w.value);
        }
    }

    /// Lets the writes arrive one after the other.
    pub fn apply(&mut self, writes: &Vec<PortWrite>)
        ensures
            *final(self) == old(self).after_writes(writes@, writes@.len() as int),
    {
        let mut i: usize = 0;
        while i < writes.len()
            invariant
                0 <= i <= writes.len(),
                *self == old(self).after_writes(writes@, i as int),
            decreases writes.len() - i,
        {
            self.write(writes[i]);
            i = i + 1;
        }
    }

    /// Remaps the pair: reads the masks, runs the four command words
    /// through both controllers and puts the masks back. Afterwards each
    /// controller reports the offset it was given, and the masks and what
    /// is in service on the master's side of the cascade are as before
    /// the call began.
    pub fn remap(&mut self, master_offset: u8, slave_offset: u8)
        ensures
            *final(self) == old(self).after_writes(
                remap_writes(master_offset, slave_offset, old(self).master.mask, old(self).slave.mask),
                20,
            ),
            final(self).master.offset == master_offset,
            final(self).slave.offset == slave_offset,
            final(self).master.mask == old(self).master.mask,
            final(self).slave.mask == old(self).slave.mask,
            final(self).master.phase == InitPhase::Ready,
            final(self).slave.phase == InitPhase::Ready,
            final(self).master.cascade == ICW3_MASTER,
            final(self).slave.cascade == ICW3_SLAVE,
            final(self).master.mode == ICW4_8086,
            final(self).slave.mode == ICW4_8086,
    {
        let master_mask = self.master.mask;
        let slave_mask = self.slave.mask;
        let writes = remap(master_offset, slave_offset, master_mask, slave_mask);
        proof {
            lemma_remap(*old(self), master_offset, slave_offset, master_mask, slave_mask);
        }
        self.apply(&writes);
    }

    /// Acknowledges `line`. With nothing in service on either controller
    /// the pair is left exactly as it was.
    pub fn send_eoi(&mut self, line: u8)
        ensures
            *final(self) == old(self).after_writes(eoi_writes(line), eoi_writes(line).len() as int),
            old(self).master.in_service == 0 && old(self).slave.in_service == 0 ==> *final(self)
                == *old(self),
            final(self).master.offset == old(self).master.offset,
            final(self).slave.offset == old(self).slave.offset,
            final(self).master.mask == old(self).master.mask,
            final(self).slave.mask == old(self).slave.mask,
    {
        let writes = send_eoi(line);
        proof {
            lemma_eoi(*old(self), line);
        }
        self.apply(&writes);
    }
}

/// What the remap sequence does to any pair: both controllers end up
/// working, with the offsets, wiring and mode of the sequence and the
/// masks it carries.
pub proof fn lemma_remap(
    pair: ControllerPair,
    master_offset: u8,
    slave_offset: u8,
    master_mask: u8,
    slave_mask: u8,
)
    ensures
        ({
            let end = pair.after_writes(
                remap_writes(master_offset, slave_offset, master_mask, slave_mask),
                20,
            );
            &&& end.master.offset == master_offset
            &&& end.slave.offset == slave_offset
            &&& end.master.mask == master_mask
            &&& end.slave.mask == slave_mask
            &&& end.master.phase == InitPhase::Ready
            &&& end.slave.phase == InitPhase::Ready
            &&& end.master.cascade == ICW3_MASTER
            &&& end.slave.cascade == ICW3_SLAVE
            &&& end.master.mode == ICW4_8086
            &&& end.slave.mode == ICW4_8086
            &&& end.master.in_service == 0
            &&& end.slave.in_service == 0
        }),
{
    let w = remap_writes(master_offset, slave_offset, master_mask, slave_mask);
    assert(0x11u8 & 0x10u8 != 0) by (bit_vector);
    reveal_with_fuel(ControllerPair::after_writes, 21);
    assert(pair.after_writes(w, 0) == pair);
    let after_2 = pair.after_writes(w, 2);
    assert(after_2.master.phase == InitPhase::AwaitOffset);
    let after_4 = pair.after_writes(w, 4);
    assert(after_4.slave.phase == InitPhase::AwaitOffset && after_4.master.phase == InitPhase::AwaitOffset);
    let after_8 = pair.after_writes(w, 8);
    assert(after_8.master.offset == master_offset && after_8.slave.offset == slave_offset);
    let after_12 = pair.after_writes(w, 12);
    assert(after_12.master.phase == InitPhase::AwaitMode && after_12.slave.phase == InitPhase::AwaitMode);
    let after_16 = pair.after_writes(w, 16);
    assert(after_16.master.phase == InitPhase::Ready && after_16.slave.phase == InitPhase::Ready);
}

/// An interrupt delivered to an idle pair and then acknowledged leaves the
/// pair idle again.
pub proof fn lemma_deliver_then_eoi(pair: ControllerPair, line: u8)
    requires
        line < 16,
        pair.master.in_service == 0,
        pair.slave.in_service == 0,
        pair.master.phase == InitPhase::Ready,
        pair.slave.phase == InitPhase::Ready,
    ensures
        pair.after_delivery(line).after_writes(eoi_writes(line), eoi_writes(line).len() as int)
            == pair,
{
    assert(0x20u8 & 0x10u8 == 0) by (bit_vector);
    assert(forall|b: u8|
        b < 8 ==> (0u8 | (1u8 << b)) != 0 && (0u8 | (#[trigger] (1u8 << b))) & (((0u8 | (1u8 << b))
            - 1) as u8) == 0) by (bit_vector);
    assert((0u8 | 4u8) != 0 && (0u8 | 4u8) & (((0u8 | 4u8) - 1) as u8) == 0) by (bit_vector);
    reveal_with_fuel(ControllerPair::after_writes, 5);
    if line >= 8 {
        let b = (line - 8) as u8;
        assert(b < 8);
        assert((1u8 << b) == (1u8 << b));
    } else {
        assert((1u8 << line) == (1u8 << line));
    }
}

/// What acknowledging a line does to any pair: offsets and masks stay, and
/// a pair with nothing in service does not change at all.
pub proof fn lemma_eoi(pair: ControllerPair, line: u8)
    ensures
        ({
            let end = pair.after_writes(eoi_writes(line), eoi_writes(line).len() as int);
            &&& end.master.offset == pair.master.offset
            &&& end.slave.offset == pair.slave.offset
            &&& end.master.mask == pair.master.mask
            &&& end.slave.mask == pair.slave.mask
            &&& pair.master.in_service == 0 && pair.slave.in_service == 0 ==> end == pair
        }),
{
    assert(0x20u8 & 0x10u8 == 0) by (bit_vector);
    reveal_with_fuel(ControllerPair::after_writes, 5);
}

/// Which of the lines that the mouse needs are let through.
#[derive(Copy, Clone, Debug, PartialEq, Eq, Structural)]
pub struct PicLines {
    pub timer_enabled: bool,
    pub keyboard_enabled: bool,
    pub cascade_enabled: bool,
    pub mouse_enabled: bool,
}

/// Reads the two mask registers: which lines are let through, and the
/// writes that let the mouse line and the cascade line through whatever
/// the masks were.
pub fn verify_pic_mouse_state(master_mask: u8, slave_mask: u8) -> (r: (PicLines, [PortWrite; 2]))
    ensures
        r.0 == (PicLines {
            timer_enabled: master_mask & 0x01 == 0,
            keyboard_enabled: master_mask & 0x02 == 0,
            cascade_enabled: master_mask & 0x04 == 0,
            mouse_enabled: slave_mask & 0x10 == 0,
        }),
        r.1[0] == (PortWrite { port: PIC2_DATA, value: slave_mask & !0x10u8 }),
        r.1[1] == (PortWrite { port: PIC1_DATA, value: master_mask & !0x04u8 }),
{
    (
        PicLines {
            timer_enabled: (master_mask & 0x01) == 0,
            keyboard_enabled: (master_mask & 0x02) == 0,
            cascade_enabled: (master_mask & 0x04) == 0,
            mouse_enabled: (slave_mask & 0x10) == 0,
        },
        [
            PortWrite { port: PIC2_DATA, value: slave_mask & !0x10 },
            PortWrite { port: PIC1_DATA, value: master_mask & !0x04 },
        ],
    )
}

} // verus!
