//! What the kernel checks at its start and on every turn of its idle
//! loop: the boot loader's greeting, the uptime, and the stack pointer.

use vstd::prelude::*;

verus! {

/// What a boot loader of the second multiboot kind leaves in the first
/// register.
pub const MULTIBOOT2_MAGIC: u32 = 0x36d7_6289;

/// Ticks of the timer in a second.
pub const TICKS_PER_SECOND: u64 = 100;

/// After so many turns of the loop the stack pointer is looked at.
pub const STACK_CHECK_PERIOD: u32 = 10_000_000;

/// The lowest address at which the stack pointer may stand.
pub const STACK_LOWEST: u32 = 0x7_0000;

/// The highest address at which the stack pointer may stand.
pub const STACK_HIGHEST: u32 = 0x10_0000;

/// Whether the kernel was started by a boot loader of the second
/// multiboot kind.
pub fn handoff_ok(magic: u32) -> (r: bool)
    ensures
        r == (magic == MULTIBOOT2_MAGIC),
{
    magic == MULTIBOOT2_MAGIC
}

/// What a look at the stack pointer finds.
#[derive(Debug, Clone, Copy, PartialEq, Eq, Structural)]
pub enum StackState {
    Null,
    TooLow,
    TooHigh,
    Unaligned,
    Sound,
}

impl StackState {
    /// Whether the kernel may go on with this stack.
    pub open spec fn valid(self) -> bool {
        self == StackState::Sound
    }

    /// Whether the kernel may go on with this stack.
    pub fn is_valid(&self) -> (r: bool)
        ensures
            r == self.valid(),
    {
        match self {
            StackState::Sound => true,
            _ => false,
        }
    }

    /// The mark that the log shows for this state.
    pub fn label(&self) -> (r: &'static str)
        ensures
            r == (match *self {
                StackState::Null => " **NULL**",
                StackState::TooLow => " **TOO_LOW**",
                StackState::TooHigh => " **TOO_HIGH**",
                StackState::Unaligned => " **UNALIGNED**",
                StackState::Sound => " OK",
            }),
    {
        match self {
            StackState::Null => " **NULL**",
            StackState::TooLow => " **TOO_LOW**",
            StackState::TooHigh => " **TOO_HIGH**",
            StackState::Unaligned => " **UNALIGNED**",
            StackState::Sound => " OK",
        }
    }
}

/// The state of a stack whose pointer reads `esp`: sound between the
/// lowest and the highest address, both included, at a multiple of four.
pub open spec fn stack_state_of(esp: u32) -> StackState {
    if esp == 0 {
        StackState::Null
    } else if esp < STACK_LOWEST {
        StackState::TooLow
    } else if esp > STACK_HIGHEST {
        StackState::TooHigh
    } else if esp % 4 != 0 {
        StackState::Unaligned
    } else {
        StackState::Sound
    }
}

/// The state of a stack whose pointer reads `esp`.
pub fn stack_state(esp: u32) -> (r: StackState)
    ensures
        r == stack_state_of(esp),
        r.valid() <==> STACK_LOWEST <= esp <= STACK_HIGHEST && esp % 4 == 0,
{
    if esp == 0 {
        StackState::Null
    } else if esp < STACK_LOWEST {
        StackState::TooLow
    } else if esp > STACK_HIGHEST {
        StackState::TooHigh
    } else if esp % 4 != 0 {
        StackState::Unaligned
    } else {
        StackState::Sound
    }
}

/// The look at the stack pointer in turn `iteration` of the loop: none
/// but in the turns that are a multiple of the period. The kernel stops
/// where the state is not valid.
pub fn check_stack_in_main_loop(iteration: u32, esp: u32) -> (r: Option<StackState>)
    ensures
        r == (if iteration % STACK_CHECK_PERIOD == 0 {
            Some(stack_state_of(esp))
        } else {
            None
        }),
{
    if iteration % STACK_CHECK_PERIOD == 0 {
        Some(stack_state(esp))
    } else {
        None
    }
}

/// What one turn of the idle loop has to tell and to do.
#[derive(Debug, Clone, Copy, PartialEq, Eq)]
pub struct LoopReport {
    /// The seconds and the ticks since the start, where a second has
    /// gone by since the last turn.
    pub uptime: Option<(u64, u64)>,
    /// Whether the stack pointer is to be looked at.
    pub check_stack: bool,
}

/// What the idle loop remembers from one turn to the next.
#[derive(Debug, Clone, Copy, PartialEq, Eq, Structural)]
pub struct MainLoop {
    pub last_second: u64,
    pub loop_counter: u32,
}

impl MainLoop {
    /// The counter after one more turn; it starts again after its
    /// largest value.
    pub open spec fn next_counter(self) -> u32 {
        if self.loop_counter == u32::MAX {
            0
        } else {
            (self.loop_counter + 1) as u32
        }
    }

    /// The loop after a turn at tick `ticks`, and what the turn reports.
    pub open spec fn after(self, ticks: u64) -> (MainLoop, LoopReport) {
        let seconds = ticks / TICKS_PER_SECOND;
        (
            MainLoop { last_second: seconds, loop_counter: self.next_counter() },
            LoopReport {
                uptime: if seconds != self.last_second {
                    Some((seconds, ticks))
                } else {
                    None
                },
                check_stack: self.next_counter() % STACK_CHECK_PERIOD == 0,
            },
        )
    }

    /// A loop that has made no turn.
    pub fn new() -> (r: Self)
        ensures
            r == (MainLoop { last_second: 0, loop_counter: 0 }),
    {
        MainLoop { last_second: 0, loop_counter: 0 }
    }

    /// One turn of the loop at tick `ticks`.
    pub fn step(&mut self, ticks: u64) -> (r: LoopReport)
        ensures
            (*final(self), r) == old(self).after(ticks),
    {
        self.loop_counter = self.loop_counter.wrapping_add(1);
        let seconds: u64 = ticks / TICKS_PER_SECOND;
        let uptime = if seconds != self.last_second {
            self.last_second = seconds;
            Some((seconds, ticks))
        } else {
            None
        };
        LoopReport { uptime, check_stack: self.loop_counter % STACK_CHECK_PERIOD == 0 }
    }
}

} // verus!
