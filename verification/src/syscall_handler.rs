//! The registers that switch the fast system call instruction on, and what
//! the entry code hands back to the program.

use vstd::prelude::*;
use crate::syscall::{handle_syscall, outcome_of, SyscallOutcome};

verus! {

/// Selectors of the code segments for the switch in and out of the kernel.
pub const IA32_STAR: u32 = 0xC000_0081;

/// Address of the entry code.
pub const IA32_LSTAR: u32 = 0xC000_0082;

/// Flags that are cleared on entry.
pub const IA32_FMASK: u32 = 0xC000_0084;

/// Extended features.
pub const IA32_EFER: u32 = 0xC000_0080;

/// The bit of the extended features that switches system calls on.
pub const EFER_SCE: u64 = 1;

/// The kernel's code selector at bit 32 and the base of the user
/// selectors, with privilege level 3, at bit 48.
pub const STAR_VALUE: u64 = 0x001B_0008_0000_0000;

/// The interrupt flag: interrupts are off while a system call is entered.
pub const FMASK_VALUE: u64 = 0x200;

/// A value to be written to a model-specific register.
#[derive(Debug, Clone, Copy, PartialEq, Eq, Structural)]
pub struct MsrWrite {
    pub msr: u32,
    pub value: u64,
}

/// The four writes that switch system calls on, in order.
pub open spec fn setup_writes(efer: u64, entry: u64) -> Seq<MsrWrite> {
    seq![
        MsrWrite { msr: IA32_EFER, value: efer | EFER_SCE },
        MsrWrite { msr: IA32_STAR, value: STAR_VALUE },
        MsrWrite { msr: IA32_LSTAR, value: entry },
        MsrWrite { msr: IA32_FMASK, value: FMASK_VALUE },
    ]
}

/// The writes that switch system calls on, where the extended features
/// read `efer` and the entry code stands at `entry`: the features with
/// the system call bit set and all else kept, the selectors, the entry,
/// and the flag mask.
pub fn init(efer: u64, entry: u64) -> (r: [MsrWrite; 4])
    ensures
        r@ == setup_writes(efer, entry),
        r[0].value & EFER_SCE == EFER_SCE,
        r[0].value & !EFER_SCE == efer & !EFER_SCE,
{
    assert((efer | 1) & 1 == 1 && (efer | 1) & !1u64 == efer & !1u64) by (bit_vector);
    let user_cs: u64 = (0x18 | 3) << 48;
    let kernel_cs: u64 = 0x08 << 32;
    assert(((0x18u64 | 3) << 48) | (0x08u64 << 32) == 0x001B_0008_0000_0000) by (bit_vector);
    let r = [
        MsrWrite { msr: IA32_EFER, value: efer | EFER_SCE },
        MsrWrite { msr: IA32_STAR, value: user_cs | kernel_cs },
        MsrWrite { msr: IA32_LSTAR, value: entry },
        MsrWrite { msr: IA32_FMASK, value: FMASK_VALUE },
    ];
    assert(r@ =~= setup_writes(efer, entry));
    r
}

/// What the entry code does for system call `syscall_num` at tick
/// `ticks`; the value of the result, an error code where it failed, is
/// what the program gets back.
pub fn syscall_handler_wrapper(
    syscall_num: u64,
    arg1: u64,
    arg2: u64,
    arg3: u64,
    arg4: u64,
    arg5: u64,
    ticks: u64,
) -> (r: (i64, SyscallOutcome))
    ensures
        r.1 == outcome_of(syscall_num, arg1, arg2, arg3, ticks),
        r.0 == r.1.result.value,
{
    let outcome = handle_syscall(syscall_num, arg1, arg2, arg3, arg4, arg5, ticks);
    (outcome.result.value, outcome)
}

} // verus!
