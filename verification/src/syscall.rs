//! Numbers and results of the system calls.

use vstd::prelude::*;

verus! {

/// The system calls by name.
#[derive(Debug, Clone, Copy, PartialEq, Eq, Structural)]
pub enum Syscall {
    Exit,
    Fork,
    Wait,
    GetPid,
    Mmap,
    Munmap,
    Brk,
    Read,
    Write,
    Open,
    Close,
    Print,
    GetChar,
    GetTime,
    Sleep,
    GetSystemInfo,
    Invalid,
}

/// Invalid argument.
pub const EINVAL: i64 = -1;

/// Function not implemented.
pub const ENOSYS: i64 = -2;

/// Permission denied.
pub const EACCES: i64 = -3;

/// Out of memory.
pub const ENOMEM: i64 = -4;

/// Bad file descriptor.
pub const EBADF: i64 = -5;

/// Try again.
pub const EAGAIN: i64 = -6;

impl Syscall {
    /// The call that number `num` stands for.
    pub open spec fn of(num: u64) -> Syscall {
        if num == 0 {
            Syscall::Exit
        } else if num == 1 {
            Syscall::Fork
        } else if num == 2 {
            Syscall::Wait
        } else if num == 3 {
            Syscall::GetPid
        } else if num == 9 {
            Syscall::Mmap
        } else if num == 10 {
            Syscall::Munmap
        } else if num == 11 {
            Syscall::Brk
        } else if num == 20 {
            Syscall::Read
        } else if num == 21 {
            Syscall::Write
        } else if num == 22 {
            Syscall::Open
        } else if num == 23 {
            Syscall::Close
        } else if num == 30 {
            Syscall::Print
        } else if num == 31 {
            Syscall::GetChar
        } else if num == 40 {
            Syscall::GetTime
        } else if num == 41 {
            Syscall::Sleep
        } else if num == 50 {
            Syscall::GetSystemInfo
        } else {
            Syscall::Invalid
        }
    }

    /// The number of the call; `Invalid` has 0xFFFFFFFF.
    pub open spec fn code(self) -> u64 {
        match self {
            Syscall::Exit => 0,
            Syscall::Fork => 1,
            Syscall::Wait => 2,
            Syscall::GetPid => 3,
            Syscall::Mmap => 9,
            Syscall::Munmap => 10,
            Syscall::Brk => 11,
            Syscall::Read => 20,
            Syscall::Write => 21,
            Syscall::Open => 22,
            Syscall::Close => 23,
            Syscall::Print => 30,
            Syscall::GetChar => 31,
            Syscall::GetTime => 40,
            Syscall::Sleep => 41,
            Syscall::GetSystemInfo => 50,
            Syscall::Invalid => 0xFFFF_FFFF,
        }
    }

    /// A call comes back from its own number.
    pub proof fn lemma_code_of(self)
        requires
            self != Syscall::Invalid,
        ensures
            Self::of(self.code()) == self,
    {
    }

    /// The number that stands for this call.
    pub fn number(&self) -> (r: u64)
        ensures
            r == self.code(),
    {
        match self {
            Syscall::Exit => 0,
            Syscall::Fork => 1,
            Syscall::Wait => 2,
            Syscall::GetPid => 3,
            Syscall::Mmap => 9,
            Syscall::Munmap => 10,
            Syscall::Brk => 11,
            Syscall::Read => 20,
            Syscall::Write => 21,
            Syscall::Open => 22,
            Syscall::Close => 23,
            Syscall::Print => 30,
            Syscall::GetChar => 31,
            Syscall::GetTime => 40,
            Syscall::Sleep => 41,
            Syscall::GetSystemInfo => 50,
            Syscall::Invalid => 0xFFFF_FFFF,
        }
    }
}

/// What a system call hands back: a value, or an error code.
#[derive(Debug, Clone, Copy, PartialEq, Eq, Structural)]
pub struct SyscallResult {
    pub value: i64,
    pub error: bool,
}

impl SyscallResult {
    pub fn ok(value: i64) -> (r: Self)
        ensures
            r == (SyscallResult { value, error: false }),
    {
        SyscallResult { value, error: false }
    }

    pub fn err(error_code: i64) -> (r: Self)
        ensures
            r == (SyscallResult { value: error_code, error: true }),
    {
        SyscallResult { value: error_code, error: true }
    }
}

/// What the kernel tells a program about the machine.
#[derive(Debug, Clone, Copy, PartialEq, Eq, Structural)]
pub struct SystemInfo {
    pub total_memory: u64,
    pub free_memory: u64,
    pub uptime_ms: u64,
    pub process_count: u32,
}

impl vstd::std_specs::convert::FromSpecImpl<u64> for Syscall {
    open spec fn obeys_from_spec() -> bool {
        true
    }

    open spec fn from_spec(num: u64) -> Syscall {
        Syscall::of(num)
    }
}

impl From<u64> for Syscall {
    /// The call that number `num` stands for; `Invalid` for a number that
    /// stands for none.
    fn from(num: u64) -> (r: Syscall)
        ensures
            r == Syscall::of(num),
    {
        match num {
            0 => Syscall::Exit,
            1 => Syscall::Fork,
            2 => Syscall::Wait,
            3 => Syscall::GetPid,
            9 => Syscall::Mmap,
            10 => Syscall::Munmap,
            11 => Syscall::Brk,
            20 => Syscall::Read,
            21 => Syscall::Write,
            22 => Syscall::Open,
            23 => Syscall::Close,
            30 => Syscall::Print,
            31 => Syscall::GetChar,
            40 => Syscall::GetTime,
            41 => Syscall::Sleep,
            50 => Syscall::GetSystemInfo,
            _ => Syscall::Invalid,
        }
    }
}

/// What is left to do for a system call once it has been looked at.
#[derive(Debug, Clone, Copy, PartialEq, Eq, Structural)]
pub enum SyscallAction {
    /// Nothing: the result is all there is.
    Nothing,
    /// The program has ended with `code`: stop for good.
    Halt { code: u32 },
    /// Write the `count` bytes at `address` to the log, after the words
    /// that mark a program's own message where `labelled` holds.
    WriteBytes { address: u64, count: u64, labelled: bool },
    /// Rest until the tick counter has reached `until`.
    SleepUntil { until: u64 },
    /// Store `info` at `address`.
    StoreInfo { address: u64, info: SystemInfo },
}

/// A system call's result, and what is left to do for it.
#[derive(Debug, Clone, Copy, PartialEq, Eq, Structural)]
pub struct SyscallOutcome {
    pub result: SyscallResult,
    pub action: SyscallAction,
}

/// The lowest address a program may hand over.
pub const USER_LOWEST: u64 = 0x1000;

/// The first address above those a program may hand over.
pub const USER_END: u64 = 0xFFFF_8000_0000_0000;

/// Ticks of the timer in a second.
pub const TICKS_PER_SECOND: u64 = 100;

/// Whether a program may hand `address` over.
pub open spec fn user_address(address: u64) -> bool {
    USER_LOWEST <= address < USER_END
}

/// The low 32 bits of `value`.
pub open spec fn low_word(value: u64) -> u32 {
    (value % 0x1_0000_0000) as u32
}

/// `value` read as a signed number of 64 bits.
pub open spec fn as_signed(value: u64) -> i64 {
    if value <= i64::MAX {
        value as i64
    } else {
        (value - 0x1_0000_0000_0000_0000) as i64
    }
}

/// `a * b / c`, the product cut to 64 bits before it is divided.
pub open spec fn scaled(a: u64, b: u64, c: u64) -> u64
    recommends
        c > 0,
{
    (((a * b) % 0x1_0000_0000_0000_0000) / (c as int)) as u64
}

/// The tick at which a sleep of `ms` milliseconds that starts at tick
/// `start` is over, cut to 64 bits.
pub open spec fn sleep_end(start: u64, ms: u64) -> u64 {
    ((start + scaled(ms, TICKS_PER_SECOND, 1000)) % 0x1_0000_0000_0000_0000) as u64
}

/// What the machine says of itself after `ticks` ticks.
pub open spec fn system_info(ticks: u64) -> SystemInfo {
    SystemInfo {
        total_memory: 0x800_0000,
        free_memory: 0x400_0000,
        uptime_ms: scaled(ticks, 1000, TICKS_PER_SECOND),
        process_count: 1,
    }
}

/// An outcome that is a result alone.
pub open spec fn only(result: SyscallResult) -> SyscallOutcome {
    SyscallOutcome { result, action: SyscallAction::Nothing }
}

/// The failure with `code`.
pub open spec fn failure(code: i64) -> SyscallOutcome {
    only(SyscallResult { value: code, error: true })
}

/// The success with `value`.
pub open spec fn success(value: i64) -> SyscallResult {
    SyscallResult { value, error: false }
}

/// What system call `num` with these arguments comes to at tick `ticks`.
///
/// The calls that are not there yet fail with `ENOSYS`, and so does a
/// number that stands for no call. A write goes to the descriptors 1 and
/// 2 only, else it fails with `EBADF`; an address that no program may
/// hand over fails with `EINVAL`.
pub open spec fn outcome_of(num: u64, arg1: u64, arg2: u64, arg3: u64, ticks: u64) -> SyscallOutcome {
    match Syscall::of(num) {
        Syscall::Exit => SyscallOutcome {
            result: success(0),
            action: SyscallAction::Halt { code: low_word(arg1) },
        },
        Syscall::GetPid => only(success(1)),
        Syscall::Write => if low_word(arg1) != 1 && low_word(arg1) != 2 {
            failure(EBADF)
        } else if !user_address(arg2) {
            failure(EINVAL)
        } else {
            SyscallOutcome {
                result: success(as_signed(arg3)),
                action: SyscallAction::WriteBytes { address: arg2, count: arg3, labelled: false },
            }
        },
        Syscall::Print => if !user_address(arg1) {
            failure(EINVAL)
        } else {
            SyscallOutcome {
                result: success(as_signed(arg2)),
                action: SyscallAction::WriteBytes { address: arg1, count: arg2, labelled: true },
            }
        },
        Syscall::GetTime => only(success(as_signed(ticks))),
        Syscall::Sleep => SyscallOutcome {
            result: success(0),
            action: SyscallAction::SleepUntil { until: sleep_end(ticks, arg1) },
        },
        Syscall::GetSystemInfo => if !user_address(arg1) {
            failure(EINVAL)
        } else {
            SyscallOutcome {
                result: success(0),
                action: SyscallAction::StoreInfo { address: arg1, info: system_info(ticks) },
            }
        },
        _ => failure(ENOSYS),
    }
}

/// The low 32 bits of `value`.
pub fn low_half(value: u64) -> (r: u32)
    ensures
        r == low_word(value),
{
    assert(value & 0xFFFF_FFFF == value % 0x1_0000_0000) by (bit_vector);
    (value & 0xFFFF_FFFF) as u32
}

/// `value` read as a signed number of 64 bits.
pub fn signed_value(value: u64) -> (r: i64)
    ensures
        r == as_signed(value),
{
    if value <= 0x7FFF_FFFF_FFFF_FFFF {
        value as i64
    } else {
        let below: u64 = u64::MAX - value;
        -1 - (below as i64)
    }
}

/// Whether a program may hand `address` over.
pub fn is_user_address(address: u64) -> (r: bool)
    ensures
        r == user_address(address),
{
    address >= USER_LOWEST && address < USER_END
}

/// What system call `syscall_num` with these arguments comes to at tick
/// `ticks`: its result, and what is left to do for it.
pub fn handle_syscall(
    syscall_num: u64,
    arg1: u64,
    arg2: u64,
    arg3: u64,
    arg4: u64,
    arg5: u64,
    ticks: u64,
) -> (r: SyscallOutcome)
    ensures
        r == outcome_of(syscall_num, arg1, arg2, arg3, ticks),
{
    match Syscall::from(syscall_num) {
        Syscall::Exit => sys_exit(arg1),
        Syscall::GetPid => sys_getpid(),
        Syscall::Write => sys_write(arg1, arg2, arg3),
        Syscall::Print => sys_print(arg1, arg2),
        Syscall::GetTime => sys_gettime(ticks),
        Syscall::Sleep => sys_sleep(arg1, ticks),
        Syscall::GetSystemInfo => sys_get_system_info(arg1, ticks),
        _ => SyscallOutcome { result: SyscallResult::err(ENOSYS), action: SyscallAction::Nothing },
    }
}

/// The end of the program with the low half of `code`.
pub fn sys_exit(code: u64) -> (r: SyscallOutcome)
    ensures
        r == (SyscallOutcome {
            result: success(0),
            action: SyscallAction::Halt { code: low_word(code) },
        }),
{
    SyscallOutcome { result: SyscallResult::ok(0), action: SyscallAction::Halt { code: low_half(code) } }
}

/// The one process there is.
pub fn sys_getpid() -> (r: SyscallOutcome)
    ensures
        r == only(success(1)),
{
    SyscallOutcome { result: SyscallResult::ok(1), action: SyscallAction::Nothing }
}

/// A write of `count` bytes at `buf_ptr` to descriptor `fd`.
pub fn sys_write(fd: u64, buf_ptr: u64, count: u64) -> (r: SyscallOutcome)
    ensures
        r == (if low_word(fd) != 1 && low_word(fd) != 2 {
            failure(EBADF)
        } else if !user_address(buf_ptr) {
            failure(EINVAL)
        } else {
            SyscallOutcome {
                result: success(as_signed(count)),
                action: SyscallAction::WriteBytes { address: buf_ptr, count, labelled: false },
            }
        }),
{
    let fd: u32 = low_half(fd);
    if fd != 1 && fd != 2 {
        return SyscallOutcome { result: SyscallResult::err(EBADF), action: SyscallAction::Nothing };
    }
    if !is_user_address(buf_ptr) {
        return SyscallOutcome { result: SyscallResult::err(EINVAL), action: SyscallAction::Nothing };
    }
    SyscallOutcome {
        result: SyscallResult::ok(signed_value(count)),
        action: SyscallAction::WriteBytes { address: buf_ptr, count, labelled: false },
    }
}

/// A message of `len` bytes at `msg_ptr` for the log.
pub fn sys_print(msg_ptr: u64, len: u64) -> (r: SyscallOutcome)
    ensures
        r == (if !user_address(msg_ptr) {
            failure(EINVAL)
        } else {
            SyscallOutcome {
                result: success(as_signed(len)),
                action: SyscallAction::WriteBytes { address: msg_ptr, count: len, labelled: true },
            }
        }),
{
    if !is_user_address(msg_ptr) {
        return SyscallOutcome { result: SyscallResult::err(EINVAL), action: SyscallAction::Nothing };
    }
    SyscallOutcome {
        result: SyscallResult::ok(signed_value(len)),
        action: SyscallAction::WriteBytes { address: msg_ptr, count: len, labelled: true },
    }
}

/// The ticks so far.
pub fn sys_gettime(ticks: u64) -> (r: SyscallOutcome)
    ensures
        r == only(success(as_signed(ticks))),
{
    SyscallOutcome { result: SyscallResult::ok(signed_value(ticks)), action: SyscallAction::Nothing }
}

/// A rest of `ms` milliseconds from tick `ticks` on.
pub fn sys_sleep(ms: u64, ticks: u64) -> (r: SyscallOutcome)
    ensures
        r == (SyscallOutcome {
            result: success(0),
            action: SyscallAction::SleepUntil { until: sleep_end(ticks, ms) },
        }),
{
    let until: u64 = ticks.wrapping_add(ms.wrapping_mul(TICKS_PER_SECOND) / 1000);
    SyscallOutcome { result: SyscallResult::ok(0), action: SyscallAction::SleepUntil { until } }
}

/// What the machine says of itself, to be stored at `info_ptr`.
pub fn sys_get_system_info(info_ptr: u64, ticks: u64) -> (r: SyscallOutcome)
    ensures
        r == (if !user_address(info_ptr) {
            failure(EINVAL)
        } else {
            SyscallOutcome {
                result: success(0),
                action: SyscallAction::StoreInfo { address: info_ptr, info: system_info(ticks) },
            }
        }),
{
    if !is_user_address(info_ptr) {
        return SyscallOutcome { result: SyscallResult::err(EINVAL), action: SyscallAction::Nothing };
    }
    let info = SystemInfo {
        total_memory: 128 * 1024 * 1024,
        free_memory: 64 * 1024 * 1024,
        uptime_ms: ticks.wrapping_mul(1000) / TICKS_PER_SECOND,
        process_count: 1,
    };
    SyscallOutcome { result: SyscallResult::ok(0), action: SyscallAction::StoreInfo { address: info_ptr, info } }
}

} // verus!
