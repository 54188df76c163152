//! The trap frame and the dispatcher: what was interrupted, which kind of
//! event it was, and what has to happen before the interrupted code goes
//! on.

use vstd::prelude::*;
use crate::pic::{PortWrite, eoi_writes, send_eoi};

verus! {

/// First vector of the hardware lines.
pub const IRQ_BASE: u64 = 32;

/// Vector of the timer (line 0).
pub const TIMER_VECTOR: u64 = 32;

/// Vector of the keyboard (line 1).
pub const KEYBOARD_VECTOR: u64 = 33;

/// Vector of the mouse (line 12).
pub const MOUSE_VECTOR: u64 = 44;

/// Vector of the system call.
pub const SYSCALL_VECTOR: u64 = 128;

/// The general registers in the order in which a trap stub saves them.
#[derive(Copy, Clone, Debug, PartialEq, Eq, Structural)]
pub struct GeneralRegisters {
    pub r15: u64,
    pub r14: u64,
    pub r13: u64,
    pub r12: u64,
    pub r11: u64,
    pub r10: u64,
    pub r9: u64,
    pub r8: u64,
    pub rdi: u64,
    pub rsi: u64,
    pub rbp: u64,
    pub rdx: u64,
    pub rcx: u64,
    pub rbx: u64,
    pub rax: u64,
}

/// What the CPU itself pushes when it takes an interrupt.
#[derive(Copy, Clone, Debug, PartialEq, Eq, Structural)]
pub struct CpuState {
    pub rip: u64,
    pub cs: u64,
    pub rflags: u64,
    pub rsp: u64,
    pub ss: u64,
}

/// The machine state at the time of an interrupt, the same for every
/// vector: the registers saved by the stub, the vector and error code the
/// stub supplies, and what the CPU pushed.
#[derive(Copy, Clone, Debug, PartialEq, Eq, Structural)]
pub struct InterruptFrame {
    pub r15: u64,
    pub r14: u64,
    pub r13: u64,
    pub r12: u64,
    pub r11: u64,
    pub r10: u64,
    pub r9: u64,
    pub r8: u64,
    pub rdi: u64,
    pub rsi: u64,
    pub rbp: u64,
    pub rdx: u64,
    pub rcx: u64,
    pub rbx: u64,
    pub rax: u64,
    pub int_no: u64,
    pub err_code: u64,
    pub rip: u64,
    pub cs: u64,
    pub rflags: u64,
    pub rsp: u64,
    pub ss: u64,
}

/// Whether the CPU pushes an error code of its own for `vector`.
pub open spec fn pushes_error_code(vector: u8) -> bool {
    vector == 8 || (10 <= vector <= 14) || vector == 17
}

/// Whether the CPU pushes an error code of its own for `vector`.
pub fn has_error_code(vector: u8) -> (r: bool)
    ensures
        r == pushes_error_code(vector),
{
    vector == 8 || (10 <= vector && vector <= 14) || vector == 17
}

/// The frame that the stub of `vector` hands to the dispatcher.
pub open spec fn frame_of(vector: u8, error_code: u64, regs: GeneralRegisters, cpu: CpuState) -> InterruptFrame {
    InterruptFrame {
        r15: regs.r15,
        r14: regs.r14,
        r13: regs.r13,
        r12: regs.r12,
        r11: regs.r11,
        r10: regs.r10,
        r9: regs.r9,
        r8: regs.r8,
        rdi: regs.rdi,
        rsi: regs.rsi,
        rbp: regs.rbp,
        rdx: regs.rdx,
        rcx: regs.rcx,
        rbx: regs.rbx,
        rax: regs.rax,
        int_no: vector as u64,
        err_code: if pushes_error_code(vector) {
            error_code
        } else {
            0
        },
        rip: cpu.rip,
        cs: cpu.cs,
        rflags: cpu.rflags,
        rsp: cpu.rsp,
        ss: cpu.ss,
    }
}

/// Brings what the stub of `vector` finds on the stack into the one frame
/// layout: where the CPU has pushed no error code, the frame holds zero
/// in its place, whatever `error_code` says.
pub fn normalize(vector: u8, error_code: u64, regs: &GeneralRegisters, cpu: &CpuState) -> (r:
    InterruptFrame)
    ensures
        r == frame_of(vector, error_code, *regs, *cpu),
{
    InterruptFrame {
        r15: regs.r15,
        r14: regs.r14,
        r13: regs.r13,
        r12: regs.r12,
        r11: regs.r11,
        r10: regs.r10,
        r9: regs.r9,
        r8: regs.r8,
        rdi: regs.rdi,
        rsi: regs.rsi,
        rbp: regs.rbp,
        rdx: regs.rdx,
        rcx: regs.rcx,
        rbx: regs.rbx,
        rax: regs.rax,
        int_no: vector as u64,
        err_code: if has_error_code(vector) {
            error_code
        } else {
            0
        },
        rip: cpu.rip,
        cs: cpu.cs,
        rflags: cpu.rflags,
        rsp: cpu.rsp,
        ss: cpu.ss,
    }
}

impl InterruptFrame {
    /// The general registers of the frame.
    pub open spec fn general(self) -> GeneralRegisters {
        GeneralRegisters {
            r15: self.r15,
            r14: self.r14,
            r13: self.r13,
            r12: self.r12,
            r11: self.r11,
            r10: self.r10,
            r9: self.r9,
            r8: self.r8,
            rdi: self.rdi,
            rsi: self.rsi,
            rbp: self.rbp,
            rdx: self.rdx,
            rcx: self.rcx,
            rbx: self.rbx,
            rax: self.rax,
        }
    }

    /// The general registers of the frame, to be restored on return.
    pub fn registers(&self) -> (r: GeneralRegisters)
        ensures
            r == self.general(),
    {
        GeneralRegisters {
            r15: self.r15,
            r14: self.r14,
            r13: self.r13,
            r12: self.r12,
            r11: self.r11,
            r10: self.r10,
            r9: self.r9,
            r8: self.r8,
            rdi: self.rdi,
            rsi: self.rsi,
            rbp: self.rbp,
            rdx: self.rdx,
            rcx: self.rcx,
            rbx: self.rbx,
            rax: self.rax,
        }
    }
}

/// The kinds of event that a vector can stand for.
#[derive(Copy, Clone, Debug, PartialEq, Eq, Structural)]
pub enum VectorClass {
    /// Vectors 0 to 31: an exception raised by the CPU.
    Exception,
    /// Vector 32: the timer.
    Timer,
    /// Vector 33: the keyboard.
    Keyboard,
    /// Vector 44: the mouse.
    Mouse,
    /// The other vectors from 34 to 47: a hardware line with no handler of
    /// its own.
    HardwareIrq,
    /// Vectors 48 to 127: not in use.
    Reserved,
    /// Vector 128: a system call.
    Syscall,
    /// Vectors 129 to 255: software interrupts and spurious ones.
    Software,
    /// Anything above 255: no vector at all.
    Invalid,
}

pub open spec fn vector_class(int_no: u64) -> VectorClass {
    if int_no <= 31 {
        VectorClass::Exception
    } else if int_no == 32 {
        VectorClass::Timer
    } else if int_no == 33 {
        VectorClass::Keyboard
    } else if int_no == 44 {
        VectorClass::Mouse
    } else if int_no <= 47 {
        VectorClass::HardwareIrq
    } else if int_no <= 127 {
        VectorClass::Reserved
    } else if int_no == 128 {
        VectorClass::Syscall
    } else if int_no <= 255 {
        VectorClass::Software
    } else {
        VectorClass::Invalid
    }
}

/// The kind of event that vector `int_no` stands for.
pub fn classify(int_no: u64) -> (r: VectorClass)
    ensures
        r == vector_class(int_no),
{
    if int_no <= 31 {
        VectorClass::Exception
    } else if int_no == 32 {
        VectorClass::Timer
    } else if int_no == 33 {
        VectorClass::Keyboard
    } else if int_no == 44 {
        VectorClass::Mouse
    } else if int_no <= 47 {
        VectorClass::HardwareIrq
    } else if int_no <= 127 {
        VectorClass::Reserved
    } else if int_no == 128 {
        VectorClass::Syscall
    } else if int_no <= 255 {
        VectorClass::Software
    } else {
        VectorClass::Invalid
    }
}

/// The exceptions of the CPU by name.
#[derive(Copy, Clone, Debug, PartialEq, Eq, Structural)]
pub enum ExceptionKind {
    DivideByZero,
    Debug,
    NonMaskableInterrupt,
    Breakpoint,
    Overflow,
    BoundRangeExceeded,
    InvalidOpcode,
    DeviceNotAvailable,
    DoubleFault,
    CoprocessorSegmentOverrun,
    InvalidTss,
    SegmentNotPresent,
    StackSegmentFault,
    GeneralProtectionFault,
    PageFault,
    Reserved,
    X87FpuError,
    AlignmentCheck,
    MachineCheck,
    SimdFloatingPoint,
    Virtualization,
    ControlProtection,
    Unknown,
}

pub open spec fn exception_kind_of(int_no: u64) -> ExceptionKind {
    if int_no == 0 {
        ExceptionKind::DivideByZero
    } else if int_no == 1 {
        ExceptionKind::Debug
    } else if int_no == 2 {
        ExceptionKind::NonMaskableInterrupt
    } else if int_no == 3 {
        ExceptionKind::Breakpoint
    } else if int_no == 4 {
        ExceptionKind::Overflow
    } else if int_no == 5 {
        ExceptionKind::BoundRangeExceeded
    } else if int_no == 6 {
        ExceptionKind::InvalidOpcode
    } else if int_no == 7 {
        ExceptionKind::DeviceNotAvailable
    } else if int_no == 8 {
        ExceptionKind::DoubleFault
    } else if int_no == 9 {
        ExceptionKind::CoprocessorSegmentOverrun
    } else if int_no == 10 {
        ExceptionKind::InvalidTss
    } else if int_no == 11 {
        ExceptionKind::SegmentNotPresent
    } else if int_no == 12 {
        ExceptionKind::StackSegmentFault
    } else if int_no == 13 {
        ExceptionKind::GeneralProtectionFault
    } else if int_no == 14 {
        ExceptionKind::PageFault
    } else if int_no == 15 {
        ExceptionKind::Reserved
    } else if int_no == 16 {
        ExceptionKind::X87FpuError
    } else if int_no == 17 {
        ExceptionKind::AlignmentCheck
    } else if int_no == 18 {
        ExceptionKind::MachineCheck
    } else if int_no == 19 {
        ExceptionKind::SimdFloatingPoint
    } else if int_no == 20 {
        ExceptionKind::Virtualization
    } else if int_no == 21 {
        ExceptionKind::ControlProtection
    } else {
        ExceptionKind::Unknown
    }
}

/// The exception that vector `int_no` stands for.
pub fn exception_kind(int_no: u64) -> (r: ExceptionKind)
    ensures
        r == exception_kind_of(int_no),
{
    if int_no == 0 {
        ExceptionKind::DivideByZero
    } else if int_no == 1 {
        ExceptionKind::Debug
    } else if int_no == 2 {
        ExceptionKind::NonMaskableInterrupt
    } else if int_no == 3 {
        ExceptionKind::Breakpoint
    } else if int_no == 4 {
        ExceptionKind::Overflow
    } else if int_no == 5 {
        ExceptionKind::BoundRangeExceeded
    } else if int_no == 6 {
        ExceptionKind::InvalidOpcode
    } else if int_no == 7 {
        ExceptionKind::DeviceNotAvailable
    } else if int_no == 8 {
        ExceptionKind::DoubleFault
    } else if int_no == 9 {
        ExceptionKind::CoprocessorSegmentOverrun
    } else if int_no == 10 {
        ExceptionKind::InvalidTss
    } else if int_no == 11 {
        ExceptionKind::SegmentNotPresent
    } else if int_no == 12 {
        ExceptionKind::StackSegmentFault
    } else if int_no == 13 {
        ExceptionKind::GeneralProtectionFault
    } else if int_no == 14 {
        ExceptionKind::PageFault
    } else if int_no == 15 {
        ExceptionKind::Reserved
    } else if int_no == 16 {
        ExceptionKind::X87FpuError
    } else if int_no == 17 {
        ExceptionKind::AlignmentCheck
    } else if int_no == 18 {
        ExceptionKind::MachineCheck
    } else if int_no == 19 {
        ExceptionKind::SimdFloatingPoint
    } else if int_no == 20 {
        ExceptionKind::Virtualization
    } else if int_no == 21 {
        ExceptionKind::ControlProtection
    } else {
        ExceptionKind::Unknown
    }
}

impl ExceptionKind {
    /// The name under which the exception is reported.
    pub open spec fn label(self) -> Seq<char> {
        match self {
            ExceptionKind::DivideByZero => "Divide by Zero"@,
            ExceptionKind::Debug => "Debug"@,
            ExceptionKind::NonMaskableInterrupt => "Non-Maskable Interrupt"@,
            ExceptionKind::Breakpoint => "Breakpoint"@,
            ExceptionKind::Overflow => "Overflow"@,
            ExceptionKind::BoundRangeExceeded => "Bound Range Exceeded"@,
            ExceptionKind::InvalidOpcode => "Invalid Opcode"@,
            ExceptionKind::DeviceNotAvailable => "Device Not Available"@,
            ExceptionKind::DoubleFault => "Double Fault"@,
            ExceptionKind::CoprocessorSegmentOverrun => "Coprocessor Segment Overrun"@,
            ExceptionKind::InvalidTss => "Invalid TSS"@,
            ExceptionKind::SegmentNotPresent => "Segment Not Present"@,
            ExceptionKind::StackSegmentFault => "Stack Segment Fault"@,
            ExceptionKind::GeneralProtectionFault => "General Protection Fault"@,
            ExceptionKind::PageFault => "Page Fault"@,
            ExceptionKind::Reserved => "Reserved"@,
            ExceptionKind::X87FpuError => "x87 FPU Error"@,
            ExceptionKind::AlignmentCheck => "Alignment Check"@,
            ExceptionKind::MachineCheck => "Machine Check"@,
            ExceptionKind::SimdFloatingPoint => "SIMD Floating-Point Exception"@,
            ExceptionKind::Virtualization => "Virtualization Exception"@,
            ExceptionKind::ControlProtection => "Control Protection Exception"@,
            ExceptionKind::Unknown => "Reserved/Unknown"@,
        }
    }

    pub fn name(&self) -> (r: &'static str)
        ensures
            r@ == self.label(),
    {
        match self {
            ExceptionKind::DivideByZero => "Divide by Zero",
            ExceptionKind::Debug => "Debug",
            ExceptionKind::NonMaskableInterrupt => "Non-Maskable Interrupt",
            ExceptionKind::Breakpoint => "Breakpoint",
            ExceptionKind::Overflow => "Overflow",
            ExceptionKind::BoundRangeExceeded => "Bound Range Exceeded",
            ExceptionKind::InvalidOpcode => "Invalid Opcode",
            ExceptionKind::DeviceNotAvailable => "Device Not Available",
            ExceptionKind::DoubleFault => "Double Fault",
            ExceptionKind::CoprocessorSegmentOverrun => "Coprocessor Segment Overrun",
            ExceptionKind::InvalidTss => "Invalid TSS",
            ExceptionKind::SegmentNotPresent => "Segment Not Present",
            ExceptionKind::StackSegmentFault => "Stack Segment Fault",
            ExceptionKind::GeneralProtectionFault => "General Protection Fault",
            ExceptionKind::PageFault => "Page Fault",
            ExceptionKind::Reserved => "Reserved",
            ExceptionKind::X87FpuError => "x87 FPU Error",
            ExceptionKind::AlignmentCheck => "Alignment Check",
            ExceptionKind::MachineCheck => "Machine Check",
            ExceptionKind::SimdFloatingPoint => "SIMD Floating-Point Exception",
            ExceptionKind::Virtualization => "Virtualization Exception",
            ExceptionKind::ControlProtection => "Control Protection Exception",
            ExceptionKind::Unknown => "Reserved/Unknown",
        }
    }
}

/// What the error code of a page fault says, and where the fault was.
#[derive(Copy, Clone, Debug, PartialEq, Eq, Structural)]
pub struct PageFaultInfo {
    /// The address whose access faulted.
    pub address: u64,
    /// The page was there but the access was not allowed; otherwise the
    /// page was not present.
    pub protection_violation: bool,
    /// The access was a write; otherwise a read.
    pub write: bool,
    /// The access came from user mode; otherwise from the kernel.
    pub user: bool,
}

pub open spec fn page_fault_info(err_code: u64, address: u64) -> PageFaultInfo {
    PageFaultInfo {
        address,
        protection_violation: err_code & 1 != 0,
        write: err_code & 2 != 0,
        user: err_code & 4 != 0,
    }
}

/// Reads the three low bits of a page fault's error code.
pub fn decode_page_fault(err_code: u64, address: u64) -> (r: PageFaultInfo)
    ensures
        r == page_fault_info(err_code, address),
{
    PageFaultInfo {
        address,
        protection_violation: err_code & 1 != 0,
        write: err_code & 2 != 0,
        user: err_code & 4 != 0,
    }
}

/// The descriptor table that a selector error code points into.
#[derive(Copy, Clone, Debug, PartialEq, Eq, Structural)]
pub enum DescriptorTable {
    Gdt,
    Idt,
    Ldt,
}

/// What the error code of a general-protection fault says.
#[derive(Copy, Clone, Debug, PartialEq, Eq, Structural)]
pub struct SelectorError {
    /// The fault came from an event outside the program.
    pub external: bool,
    /// The table the selector indexes.
    pub table: DescriptorTable,
    /// The index into that table.
    pub index: u64,
}

pub open spec fn selector_error(err_code: u64) -> SelectorError {
    SelectorError {
        external: err_code & 1 != 0,
        table: if err_code & 2 != 0 {
            DescriptorTable::Idt
        } else if err_code & 4 != 0 {
            DescriptorTable::Ldt
        } else {
            DescriptorTable::Gdt
        },
        index: err_code >> 3u64,
    }
}

/// Takes the error code of a general-protection fault apart.
pub fn decode_selector_error(err_code: u64) -> (r: SelectorError)
    ensures
        r == selector_error(err_code),
{
    SelectorError {
        external: err_code & 1 != 0,
        table: if err_code & 2 != 0 {
            DescriptorTable::Idt
        } else if err_code & 4 != 0 {
            DescriptorTable::Ldt
        } else {
            DescriptorTable::Gdt
        },
        index: err_code >> 3,
    }
}

/// What is known of an exception beyond the registers.
#[derive(Copy, Clone, Debug, PartialEq, Eq, Structural)]
pub enum ExceptionDetail {
    Nothing,
    PageFault(PageFaultInfo),
    Selector(SelectorError),
}

/// Everything that is reported of an exception before the machine halts.
#[derive(Copy, Clone, Debug, PartialEq, Eq, Structural)]
pub struct ExceptionReport {
    pub vector: u64,
    pub kind: ExceptionKind,
    pub err_code: u64,
    pub rip: u64,
    pub rsp: u64,
    pub rbp: u64,
    pub rax: u64,
    pub cs: u64,
    pub rflags: u64,
    pub ss: u64,
    /// All general registers as the trap stub saved them.
    pub registers: GeneralRegisters,
    pub detail: ExceptionDetail,
}

/// The report of the exception in `frame`; `fault_address` is what the
/// CPU's fault-address register holds.
pub open spec fn exception_report(frame: InterruptFrame, fault_address: u64) -> ExceptionReport {
    ExceptionReport {
        vector: frame.int_no,
        kind: exception_kind_of(frame.int_no),
        err_code: frame.err_code,
        rip: frame.rip,
        rsp: frame.rsp,
        rbp: frame.rbp,
        rax: frame.rax,
        cs: frame.cs,
        rflags: frame.rflags,
        ss: frame.ss,
        registers: frame.general(),
        detail: if frame.int_no == 14 {
            ExceptionDetail::PageFault(page_fault_info(frame.err_code, fault_address))
        } else if frame.int_no == 13 && frame.err_code != 0 {
            ExceptionDetail::Selector(selector_error(frame.err_code))
        } else {
            ExceptionDetail::Nothing
        },
    }
}

/// Gathers what is reported of the exception in `frame`.
pub fn handle_cpu_exception_64(frame: &InterruptFrame, fault_address: u64) -> (r: ExceptionReport)
    ensures
        r == exception_report(*frame, fault_address),
{
    let detail = if frame.int_no == 14 {
        ExceptionDetail::PageFault(decode_page_fault(frame.err_code, fault_address))
    } else if frame.int_no == 13 && frame.err_code != 0 {
        ExceptionDetail::Selector(decode_selector_error(frame.err_code))
    } else {
        ExceptionDetail::Nothing
    };
    ExceptionReport {
        vector: frame.int_no,
        kind: exception_kind(frame.int_no),
        err_code: frame.err_code,
        rip: frame.rip,
        rsp: frame.rsp,
        rbp: frame.rbp,
        rax: frame.rax,
        cs: frame.cs,
        rflags: frame.rflags,
        ss: frame.ss,
        registers: frame.registers(),
        detail,
    }
}

/// Who has to look at the event before it is acknowledged.
#[derive(Copy, Clone, Debug, PartialEq, Eq, Structural)]
pub enum Forward {
    Nobody,
    /// The keyboard driver reads its scancode.
    Keyboard,
    /// The mouse driver reads its byte, if the controller says it is one.
    Mouse,
    /// The system-call table gets the call with its first three
    /// arguments.
    Syscall { number: u64, arg1: u64, arg2: u64, arg3: u64 },
}

/// What the dispatcher has decided for one event.
#[derive(Copy, Clone, Debug, PartialEq, Eq, Structural)]
pub struct Dispatch {
    pub class: VectorClass,
    /// For an exception: what to report.
    pub report: Option<ExceptionReport>,
    pub forward: Forward,
    /// The hardware line to acknowledge once the event is handled.
    pub eoi: Option<u8>,
    /// Whether to disable interrupts and halt for good.
    pub halt: bool,
}

/// The decision for a frame pointer that points nowhere: halt.
pub open spec fn null_frame_dispatch() -> Dispatch {
    Dispatch {
        class: VectorClass::Invalid,
        report: None,
        forward: Forward::Nobody,
        eoi: None,
        halt: true,
    }
}

/// The decision for `frame`.
pub open spec fn dispatch_of(frame: InterruptFrame, fault_address: u64) -> Dispatch {
    match vector_class(frame.int_no) {
        VectorClass::Exception => Dispatch {
            class: VectorClass::Exception,
            report: Some(exception_report(frame, fault_address)),
            forward: Forward::Nobody,
            eoi: None,
            halt: true,
        },
        VectorClass::Timer => Dispatch {
            class: VectorClass::Timer,
            report: None,
            forward: Forward::Nobody,
            eoi: Some(0u8),
            halt: false,
        },
        VectorClass::Keyboard => Dispatch {
            class: VectorClass::Keyboard,
            report: None,
            forward: Forward::Keyboard,
            eoi: Some(1u8),
            halt: false,
        },
        VectorClass::Mouse => Dispatch {
            class: VectorClass::Mouse,
            report: None,
            forward: Forward::Mouse,
            eoi: Some(12u8),
            halt: false,
        },
        VectorClass::HardwareIrq => Dispatch {
            class: VectorClass::HardwareIrq,
            report: None,
            forward: Forward::Nobody,
            eoi: Some((frame.int_no - 32) as u8),
            halt: false,
        },
        VectorClass::Reserved => Dispatch {
            class: VectorClass::Reserved,
            report: None,
            forward: Forward::Nobody,
            eoi: None,
            halt: false,
        },
        VectorClass::Syscall => Dispatch {
            class: VectorClass::Syscall,
            report: None,
            forward: Forward::Syscall {
                number: frame.rax,
                arg1: frame.rdi,
                arg2: frame.rsi,
                arg3: frame.rdx,
            },
            eoi: None,
            halt: false,
        },
        VectorClass::Software => Dispatch {
            class: VectorClass::Software,
            report: None,
            forward: Forward::Nobody,
            eoi: None,
            halt: false,
        },
        VectorClass::Invalid => Dispatch {
            class: VectorClass::Invalid,
            report: None,
            forward: Forward::Nobody,
            eoi: None,
            halt: true,
        },
    }
}

/// The frame as the dispatcher leaves it: nothing changes but the return
/// value of a system call that the kernel does not know, which becomes
/// all ones.
pub open spec fn frame_after(frame: InterruptFrame) -> InterruptFrame {
    if frame.int_no == 128 && frame.rax != 0 && frame.rax != 1 {
        InterruptFrame { rax: 0xFFFF_FFFF_FFFF_FFFF, ..frame }
    } else {
        frame
    }
}

/// One more, as far as the counter goes.
pub open spec fn counted_up(n: u64) -> u64 {
    if n < u64::MAX {
        (n + 1) as u64
    } else {
        n
    }
}

impl Dispatch {
    /// The port writes that acknowledge the event, none if there is
    /// nothing to acknowledge.
    pub fn eoi_sequence(&self) -> (r: Vec<PortWrite>)
        ensures
            r@ == (match self.eoi {
                Some(line) => eoi_writes(line),
                None => Seq::<PortWrite>::empty(),
            }),
    {
        match self.eoi {
            Some(line) => send_eoi(line),
            None => Vec::new(),
        }
    }
}

/// The counters that the dispatcher keeps.
pub struct Dispatcher {
    timer_ticks: u64,
    mouse_interrupt_count: u64,
}

impl Dispatcher {
    /// Timer interrupts seen so far.
    pub closed spec fn ticks(&self) -> u64 {
        self.timer_ticks
    }

    /// Mouse interrupts seen so far.
    pub closed spec fn mouse_interrupts(&self) -> u64 {
        self.mouse_interrupt_count
    }

    pub fn new() -> (r: Self)
        ensures
            r.ticks() == 0,
            r.mouse_interrupts() == 0,
    {
        Dispatcher { timer_ticks: 0, mouse_interrupt_count: 0 }
    }

    pub fn get_timer_ticks(&self) -> (r: u64)
        ensures
            r == self.ticks(),
    {
        self.timer_ticks
    }

    pub fn get_mouse_interrupt_count(&self) -> (r: u64)
        ensures
            r == self.mouse_interrupts(),
    {
        self.mouse_interrupt_count
    }

    /// Counts one timer tick.
    pub fn handle_timer_interrupt(&mut self)
        ensures
            final(self).ticks() == counted_up(old(self).ticks()),
            final(self).mouse_interrupts() == old(self).mouse_interrupts(),
    {
        if self.timer_ticks < u64::MAX {
            self.timer_ticks = self.timer_ticks + 1;
        }
    }

    /// Counts one mouse interrupt.
    pub fn handle_mouse_interrupt(&mut self)
        ensures
            final(self).mouse_interrupts() == counted_up(old(self).mouse_interrupts()),
            final(self).ticks() == old(self).ticks(),
    {
        if self.mouse_interrupt_count < u64::MAX {
            self.mouse_interrupt_count = self.mouse_interrupt_count + 1;
        }
    }

    /// Decides what one event asks for. The timer counter goes up on a
    /// timer interrupt and the mouse counter on a mouse interrupt, each by
    /// one; nothing else changes them. The frame is left alone but for
    /// the return value of an unknown system call.
    pub fn isr_common_handler(&mut self, frame: &mut InterruptFrame, fault_address: u64) -> (r:
        Dispatch)
        ensures
            r == dispatch_of(*old(frame), fault_address),
            *final(frame) == frame_after(*old(frame)),
            final(self).ticks() == (if old(frame).int_no == 32 {
                counted_up(old(self).ticks())
            } else {
                old(self).ticks()
            }),
            final(self).mouse_interrupts() == (if old(frame).int_no == 44 {
                counted_up(old(self).mouse_interrupts())
            } else {
                old(self).mouse_interrupts()
            }),
            final(self).ticks() >= old(self).ticks(),
    {
        let int_no = frame.int_no;
        match classify(int_no) {
            VectorClass::Exception => Dispatch {
                class: VectorClass::Exception,
                report: Some(handle_cpu_exception_64(frame, fault_address)),
                forward: Forward::Nobody,
                eoi: None,
                halt: true,
            },
            VectorClass::Timer => {
                self.handle_timer_interrupt();
                Dispatch {
                    class: VectorClass::Timer,
                    report: None,
                    forward: Forward::Nobody,
                    eoi: Some(0),
                    halt: false,
                }
            },
            VectorClass::Keyboard => Dispatch {
                class: VectorClass::Keyboard,
                report: None,
                forward: Forward::Keyboard,
                eoi: Some(1),
                halt: false,
            },
            VectorClass::Mouse => {
                self.handle_mouse_interrupt();
                Dispatch {
                    class: VectorClass::Mouse,
                    report: None,
                    forward: Forward::Mouse,
                    eoi: Some(12),
                    halt: false,
                }
            },
            VectorClass::HardwareIrq => Dispatch {
                class: VectorClass::HardwareIrq,
                report: None,
                forward: Forward::Nobody,
                eoi: Some(handle_hardware_irq(int_no)),
                halt: false,
            },
            VectorClass::Reserved => Dispatch {
                class: VectorClass::Reserved,
                report: None,
                forward: Forward::Nobody,
                eoi: None,
                halt: false,
            },
            VectorClass::Syscall => Dispatch {
                class: VectorClass::Syscall,
                report: None,
                forward: handle_system_call(frame),
                eoi: None,
                halt: false,
            },
            VectorClass::Software => Dispatch {
                class: VectorClass::Software,
                report: None,
                forward: Forward::Nobody,
                eoi: None,
                halt: false,
            },
            VectorClass::Invalid => Dispatch {
                class: VectorClass::Invalid,
                report: None,
                forward: Forward::Nobody,
                eoi: None,
                halt: true,
            },
        }
    }

    /// The decision for a stub that hands over no frame at all: halt.
    /// Nothing is counted.
    pub fn null_frame(&self) -> (r: Dispatch)
        ensures
            r == null_frame_dispatch(),
    {
        Dispatch {
            class: VectorClass::Invalid,
            report: None,
            forward: Forward::Nobody,
            eoi: None,
            halt: true,
        }
    }
}

/// The hardware line behind vector `int_no`.
pub fn handle_hardware_irq(int_no: u64) -> (r: u8)
    requires
        32 <= int_no <= 47,
    ensures
        r == int_no - 32,
{
    (int_no - 32) as u8
}

/// Takes the number and the arguments of a system call from the frame.
/// Calls 0 and 1 are known here; for any other the frame's return value
/// is set to all ones before the call is passed on.
pub fn handle_system_call(frame: &mut InterruptFrame) -> (r: Forward)
    ensures
        r == (Forward::Syscall {
            number: old(frame).rax,
            arg1: old(frame).rdi,
            arg2: old(frame).rsi,
            arg3: old(frame).rdx,
        }),
        *final(frame) == (if old(frame).rax != 0 && old(frame).rax != 1 {
            InterruptFrame { rax: 0xFFFF_FFFF_FFFF_FFFF, ..*old(frame) }
        } else {
            *old(frame)
        }),
{
    let number = frame.rax;
    let arg1 = frame.rdi;
    let arg2 = frame.rsi;
    let arg3 = frame.rdx;
    if number != 0 && number != 1 {
        frame.rax = 0xFFFF_FFFF_FFFF_FFFF;
    }
    Forward::Syscall { number, arg1, arg2, arg3 }
}

/// Whether `first_handler`, the address of the first trap stub, can be
/// where kernel code lies: at or above 1 MiB and in the lower half of the
/// address space.
pub fn verify_handlers(first_handler: u64) -> (r: bool)
    ensures
        r == (0x10_0000 <= first_handler < 0x8000_0000_0000_0000),
{
    !(first_handler < 0x10_0000 || first_handler >= 0x8000_0000_0000_0000)
}

} // verus!
