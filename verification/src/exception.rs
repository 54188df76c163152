//! Exceptions of the 32-bit kernel.

use vstd::prelude::*;

verus! {

/// The registers in the order in which the 32-bit trap stubs push them.
#[derive(Copy, Clone, Debug, PartialEq, Eq, Structural)]
pub struct SavedRegs {
    pub eax: u32,
    pub ecx: u32,
    pub edx: u32,
    pub ebx: u32,
    pub esp_dummy: u32,
    pub ebp: u32,
    pub esi: u32,
    pub edi: u32,
}

/// What the CPU pushed, found right behind the saved registers.
#[derive(Copy, Clone, Debug, PartialEq, Eq, Structural)]
pub struct SavedReturn {
    pub eip: u32,
    pub cs: u32,
    pub eflags: u32,
}

/// The line under which exception `int_no` is reported.
pub open spec fn description(int_no: u32) -> Seq<char> {
    if int_no == 0 {
        "Divide Error (INT 0)"@
    } else if int_no == 6 {
        "Invalid Opcode (INT 6)"@
    } else if int_no == 8 {
        "Double Fault (INT 8)"@
    } else if int_no == 13 {
        "General Protection Fault (INT 13)"@
    } else if int_no == 14 {
        "Page Fault (INT 14)"@
    } else {
        "Exception (other)"@
    }
}

/// What is reported of an exception before the kernel halts.
#[derive(Copy, Clone, Debug)]
pub struct ExceptionSummary {
    pub int_no: u32,
    pub err_code: u32,
    pub regs: SavedRegs,
    pub ret: SavedReturn,
    pub description: &'static str,
}

/// Gathers what is reported of exception `int_no`. Every exception halts
/// the kernel.
pub fn isr_common_handler(regs: &SavedRegs, ret: &SavedReturn, int_no: u32, err_code: u32) -> (r:
    ExceptionSummary)
    ensures
        r.int_no == int_no,
        r.err_code == err_code,
        r.regs == *regs,
        r.ret == *ret,
        r.description@ == description(int_no),
{
    let description = if int_no == 0 {
        "Divide Error (INT 0)"
    } else if int_no == 6 {
        "Invalid Opcode (INT 6)"
    } else if int_no == 8 {
        "Double Fault (INT 8)"
    } else if int_no == 13 {
        "General Protection Fault (INT 13)"
    } else if int_no == 14 {
        "Page Fault (INT 14)"
    } else {
        "Exception (other)"
    };
    ExceptionSummary { int_no, err_code, regs: *regs, ret: *ret, description }
}

} // verus!
