//! The programmable interval timer that drives the tick.

use vstd::prelude::*;
use crate::interrupts::Dispatcher;
use crate::pic::PortWrite;

verus! {

/// Cycles per second of the timer's clock.
pub const PIT_FREQUENCY: u32 = 1193182;

/// Command port of the timer.
pub const PIT_COMMAND: u16 = 0x43;

/// Data port of channel 0.
pub const PIT_CHANNEL0: u16 = 0x40;

/// Channel 0, low byte then high byte, rate generator, binary.
pub const PIT_MODE: u8 = 0x34;

/// The number by which the clock is divided for `frequency_hz` ticks a
/// second.
pub open spec fn divisor(frequency_hz: u32) -> u32 {
    (PIT_FREQUENCY as int / frequency_hz as int) as u32
}

/// The writes that set the timer to `frequency_hz` ticks a second: the
/// mode, then the two low bytes of the divisor.
pub fn init(frequency_hz: u32) -> (r: Vec<PortWrite>)
    requires
        frequency_hz > 0,
    ensures
        r@ == seq![
            PortWrite { port: PIT_COMMAND, value: PIT_MODE },
            PortWrite { port: PIT_CHANNEL0, value: (divisor(frequency_hz) & 0xFF) as u8 },
            PortWrite { port: PIT_CHANNEL0, value: ((divisor(frequency_hz) >> 8) & 0xFF) as u8 },
        ],
{
    let divisor: u32 = PIT_FREQUENCY / frequency_hz;
    let mut out: Vec<PortWrite> = Vec::new();
    out.push(PortWrite { port: PIT_COMMAND, value: PIT_MODE });
    out.push(PortWrite { port: PIT_CHANNEL0, value: (divisor & 0xFF) as u8 });
    out.push(PortWrite { port: PIT_CHANNEL0, value: ((divisor >> 8) & 0xFF) as u8 });
    assert(out@ =~= seq![
        PortWrite { port: PIT_COMMAND, value: PIT_MODE },
        PortWrite { port: PIT_CHANNEL0, value: (divisor & 0xFF) as u8 },
        PortWrite { port: PIT_CHANNEL0, value: ((divisor >> 8) & 0xFF) as u8 },
    ]);
    out
}

/// Timer ticks counted so far.
pub fn get_ticks(dispatcher: &Dispatcher) -> (r: u64)
    ensures
        r == dispatcher.ticks(),
{
    dispatcher.get_timer_ticks()
}

} // verus!
