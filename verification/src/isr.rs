//! The dispatcher of the 32-bit kernel: it is handed a bare vector number
//! and keeps its own counters.

use vstd::prelude::*;
use crate::interrupts::{SelectorError, selector_error, decode_selector_error};

verus! {

/// General-protection faults after which the machine is halted.
pub const MAX_GPF_COUNT: u32 = 5;

/// What the dispatcher has decided for one vector.
#[derive(Copy, Clone, Debug, PartialEq, Eq, Structural)]
pub enum IsrAction {
    /// A hardware line was served; it has to be acknowledged.
    Acknowledge { irq: u8 },
    /// A general-protection fault, the `count`-th before this one; the
    /// machine halts once five have been seen before.
    GeneralProtection { count: u32, halt: bool },
    /// A double fault: the machine halts.
    DoubleFault,
    /// A vector nobody handles.
    Unknown,
}

/// The counters of the dispatcher.
#[derive(Copy, Clone, Debug, PartialEq, Eq, Structural)]
pub struct IsrState {
    pub ticks: u32,
    pub exception_count: u32,
    pub debug_counter: u32,
}

/// One more, going round to zero at the end of the range.
pub open spec fn wrapped_up(n: u32) -> u32 {
    if n == u32::MAX {
        0
    } else {
        (n + 1) as u32
    }
}

impl IsrState {
    pub fn new() -> (r: Self)
        ensures
            r == (IsrState { ticks: 0, exception_count: 0, debug_counter: 0 }),
    {
        IsrState { ticks: 0, exception_count: 0, debug_counter: 0 }
    }

    /// The state and the decision for vector `vec`.
    pub open spec fn dispatched(self, vec: u32) -> (IsrState, IsrAction) {
        if 32 <= vec <= 47 {
            (
                if vec == 32 {
                    IsrState { ticks: wrapped_up(self.ticks), ..self }
                } else {
                    self
                },
                IsrAction::Acknowledge { irq: (vec - 32) as u8 },
            )
        } else if vec == 13 {
            (
                IsrState { exception_count: wrapped_up(self.exception_count), ..self },
                IsrAction::GeneralProtection {
                    count: self.exception_count,
                    halt: self.exception_count >= MAX_GPF_COUNT,
                },
            )
        } else if vec == 8 {
            (self, IsrAction::DoubleFault)
        } else {
            (self, IsrAction::Unknown)
        }
    }

    /// Decides what vector `vec` asks for. The timer counts a tick; a
    /// general-protection fault counts itself.
    pub fn isr_dispatch(&mut self, vec: u32) -> (r: IsrAction)
        ensures
            (*final(self), r) == old(self).dispatched(vec),
    {
        if 32 <= vec && vec <= 47 {
            let irq: u8 = (vec - 32) as u8;
            if irq == 0 {
                self.ticks = self.ticks.wrapping_add(1);
            }
            IsrAction::Acknowledge { irq }
        } else if vec == 13 {
            let count = self.exception_count;
            self.exception_count = self.exception_count.wrapping_add(1);
            IsrAction::GeneralProtection { count, halt: count >= MAX_GPF_COUNT }
        } else if vec == 8 {
            IsrAction::DoubleFault
        } else {
            IsrAction::Unknown
        }
    }

    /// Counts one mark of the trap stubs and returns how many came
    /// before.
    pub fn debug_log_entry(&mut self, marker: u32) -> (r: u32)
        ensures
            r == old(self).debug_counter,
            *final(self) == (IsrState {
                debug_counter: wrapped_up(old(self).debug_counter),
                ..*old(self)
            }),
    {
        let count = self.debug_counter;
        self.debug_counter = self.debug_counter.wrapping_add(1);
        count
    }
}

/// Timer ticks counted so far.
pub fn get_ticks(state: &IsrState) -> (r: u32)
    ensures
        r == state.ticks,
{
    state.ticks
}

/// Takes the error code of a general-protection fault apart.
pub fn debug_log_gpf_error_code(error_code: u32) -> (r: SelectorError)
    ensures
        r == selector_error(error_code as u64),
{
    decode_selector_error(error_code as u64)
}

} // verus!
