//! System-call numbers.
//!
//! The kernel knows 32 calls, numbered from 0. Every other number stands for
//! no call; it is read as `Invalid`, whose own number is the largest 64-bit
//! value.

use vstd::prelude::*;
use vstd::std_specs::convert::FromSpecImpl;

verus! {

/// Number of the calls the kernel knows.
pub const SYSCALL_COUNT: u64 = 32;

/// The number that `Invalid` stands under.
pub const INVALID_SYSCALL: u64 = 0xFFFF_FFFF_FFFF_FFFF;

/// A system call, or the mark of a number that names none.
#[derive(Debug, Clone, Copy, PartialEq, Eq, Structural)]
pub enum SyscallNumber {
    Exit,
    Read,
    Write,
    Open,
    Close,
    Fork,
    Execve,
    Wait,
    GetPid,
    Kill,
    Mmap,
    Munmap,
    Brk,
    Access,
    Dup,
    Dup2,
    Pipe,
    Chdir,
    Getcwd,
    Mkdir,
    Rmdir,
    Unlink,
    Rename,
    Stat,
    Fstat,
    Lstat,
    Chmod,
    Chown,
    Lchown,
    Utime,
    Time,
    GetTimeOfDay,
    Invalid,
}

/// The call that `value` names.
pub open spec fn syscall_of(value: u64) -> SyscallNumber {
    if value == 0 {
        SyscallNumber::Exit
    } else if value == 1 {
        SyscallNumber::Read
    } else if value == 2 {
        SyscallNumber::Write
    } else if value == 3 {
        SyscallNumber::Open
    } else if value == 4 {
        SyscallNumber::Close
    } else if value == 5 {
        SyscallNumber::Fork
    } else if value == 6 {
        SyscallNumber::Execve
    } else if value == 7 {
        SyscallNumber::Wait
    } else if value == 8 {
        SyscallNumber::GetPid
    } else if value == 9 {
        SyscallNumber::Kill
    } else if value == 10 {
        SyscallNumber::Mmap
    } else if value == 11 {
        SyscallNumber::Munmap
    } else if value == 12 {
        SyscallNumber::Brk
    } else if value == 13 {
        SyscallNumber::Access
    } else if value == 14 {
        SyscallNumber::Dup
    } else if value == 15 {
        SyscallNumber::Dup2
    } else if value == 16 {
        SyscallNumber::Pipe
    } else if value == 17 {
        SyscallNumber::Chdir
    } else if value == 18 {
        SyscallNumber::Getcwd
    } else if value == 19 {
        SyscallNumber::Mkdir
    } else if value == 20 {
        SyscallNumber::Rmdir
    } else if value == 21 {
        SyscallNumber::Unlink
    } else if value == 22 {
        SyscallNumber::Rename
    } else if value == 23 {
        SyscallNumber::Stat
    } else if value == 24 {
        SyscallNumber::Fstat
    } else if value == 25 {
        SyscallNumber::Lstat
    } else if value == 26 {
        SyscallNumber::Chmod
    } else if value == 27 {
        SyscallNumber::Chown
    } else if value == 28 {
        SyscallNumber::Lchown
    } else if value == 29 {
        SyscallNumber::Utime
    } else if value == 30 {
        SyscallNumber::Time
    } else if value == 31 {
        SyscallNumber::GetTimeOfDay
    } else {
        SyscallNumber::Invalid
    }
}

/// The number a call stands under.
pub open spec fn number_of(call: SyscallNumber) -> u64 {
    match call {
        SyscallNumber::Exit => 0,
        SyscallNumber::Read => 1,
        SyscallNumber::Write => 2,
        SyscallNumber::Open => 3,
        SyscallNumber::Close => 4,
        SyscallNumber::Fork => 5,
        SyscallNumber::Execve => 6,
        SyscallNumber::Wait => 7,
        SyscallNumber::GetPid => 8,
        SyscallNumber::Kill => 9,
        SyscallNumber::Mmap => 10,
        SyscallNumber::Munmap => 11,
        SyscallNumber::Brk => 12,
        SyscallNumber::Access => 13,
        SyscallNumber::Dup => 14,
        SyscallNumber::Dup2 => 15,
        SyscallNumber::Pipe => 16,
        SyscallNumber::Chdir => 17,
        SyscallNumber::Getcwd => 18,
        SyscallNumber::Mkdir => 19,
        SyscallNumber::Rmdir => 20,
        SyscallNumber::Unlink => 21,
        SyscallNumber::Rename => 22,
        SyscallNumber::Stat => 23,
        SyscallNumber::Fstat => 24,
        SyscallNumber::Lstat => 25,
        SyscallNumber::Chmod => 26,
        SyscallNumber::Chown => 27,
        SyscallNumber::Lchown => 28,
        SyscallNumber::Utime => 29,
        SyscallNumber::Time => 30,
        SyscallNumber::GetTimeOfDay => 31,
        SyscallNumber::Invalid => INVALID_SYSCALL,
    }
}

impl From<u64> for SyscallNumber {
    /// Reads a number as a call. Every number from 32 on is `Invalid`.
    fn from(value: u64) -> (call: Self) {
        match value {
            0 => SyscallNumber::Exit,
            1 => SyscallNumber::Read,
            2 => SyscallNumber::Write,
            3 => SyscallNumber::Open,
            4 => SyscallNumber::Close,
            5 => SyscallNumber::Fork,
            6 => SyscallNumber::Execve,
            7 => SyscallNumber::Wait,
            8 => SyscallNumber::GetPid,
            9 => SyscallNumber::Kill,
            10 => SyscallNumber::Mmap,
            11 => SyscallNumber::Munmap,
            12 => SyscallNumber::Brk,
            13 => SyscallNumber::Access,
            14 => SyscallNumber::Dup,
            15 => SyscallNumber::Dup2,
            16 => SyscallNumber::Pipe,
            17 => SyscallNumber::Chdir,
            18 => SyscallNumber::Getcwd,
            19 => SyscallNumber::Mkdir,
            20 => SyscallNumber::Rmdir,
            21 => SyscallNumber::Unlink,
            22 => SyscallNumber::Rename,
            23 => SyscallNumber::Stat,
            24 => SyscallNumber::Fstat,
            25 => SyscallNumber::Lstat,
            26 => SyscallNumber::Chmod,
            27 => SyscallNumber::Chown,
            28 => SyscallNumber::Lchown,
            29 => SyscallNumber::Utime,
            30 => SyscallNumber::Time,
            31 => SyscallNumber::GetTimeOfDay,
            _ => SyscallNumber::Invalid,
        }
    }
}

impl FromSpecImpl<u64> for SyscallNumber {
    open spec fn obeys_from_spec() -> bool {
        true
    }

    open spec fn from_spec(value: u64) -> Self {
        syscall_of(value)
    }
}

impl SyscallNumber {
    /// The number this call stands under.
    pub fn number(&self) -> (value: u64)
        ensures
            value == number_of(*self),
    {
        match self {
            SyscallNumber::Exit => 0,
            SyscallNumber::Read => 1,
            SyscallNumber::Write => 2,
            SyscallNumber::Open => 3,
            SyscallNumber::Close => 4,
            SyscallNumber::Fork => 5,
            SyscallNumber::Execve => 6,
            SyscallNumber::Wait => 7,
            SyscallNumber::GetPid => 8,
            SyscallNumber::Kill => 9,
            SyscallNumber::Mmap => 10,
            SyscallNumber::Munmap => 11,
            SyscallNumber::Brk => 12,
            SyscallNumber::Access => 13,
            SyscallNumber::Dup => 14,
            SyscallNumber::Dup2 => 15,
            SyscallNumber::Pipe => 16,
            SyscallNumber::Chdir => 17,
            SyscallNumber::Getcwd => 18,
            SyscallNumber::Mkdir => 19,
            SyscallNumber::Rmdir => 20,
            SyscallNumber::Unlink => 21,
            SyscallNumber::Rename => 22,
            SyscallNumber::Stat => 23,
            SyscallNumber::Fstat => 24,
            SyscallNumber::Lstat => 25,
            SyscallNumber::Chmod => 26,
            SyscallNumber::Chown => 27,
            SyscallNumber::Lchown => 28,
            SyscallNumber::Utime => 29,
            SyscallNumber::Time => 30,
            SyscallNumber::GetTimeOfDay => 31,
            SyscallNumber::Invalid => INVALID_SYSCALL,
        }
    }
}

/// Reading the number of a call gives the call back; reading a number and
/// taking the number of the result gives the number back exactly for the
/// numbers below 32 and for the number of `Invalid`.
pub proof fn lemma_syscall_numbers(call: SyscallNumber, value: u64)
    ensures
        syscall_of(number_of(call)) == call,
        number_of(syscall_of(value)) == value <==> value < SYSCALL_COUNT || value
            == INVALID_SYSCALL,
        syscall_of(value) == SyscallNumber::Invalid <==> value >= SYSCALL_COUNT,
{
}

} // verus!
