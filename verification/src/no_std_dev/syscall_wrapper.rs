//! How a system call is made on Linux on three architectures: the
//! instruction, the registers, and the numbers of four calls.
//!
//! | Arch     | Instruction | Number in | Result in | Arguments in               |
//! |----------|-------------|-----------|-----------|----------------------------|
//! | x86_64   | `syscall`   | rax       | rax       | rdi, rsi, rdx, r10, r8, r9 |
//! | aarch64  | `svc #0`    | x8        | x0        | x0, x1, x2, x3, x4, x5     |
//! | riscv64  | `ecall`     | a7        | a0        | a0, a1, a2, a3, a4, a5     |

use vstd::prelude::*;

verus! {

/// The system call convention of Linux on one architecture.
pub struct SyscallABI {
    /// The name of the architecture.
    pub arch: &'static str,
    /// The instruction that enters the kernel.
    pub instruction: &'static str,
    /// The register that holds the number of the call.
    pub id_reg: &'static str,
    /// The register that holds the result.
    pub ret_reg: &'static str,
    /// The registers that hold the arguments, in order.
    pub arg_regs: &'static [&'static str],
    /// The registers that the instruction overwrites besides the result.
    pub clobbered: &'static [&'static str],
    /// The number of `write`.
    pub sys_write: usize,
    /// The number of `read`.
    pub sys_read: usize,
    /// The number of `close`.
    pub sys_close: usize,
    /// The number of `exit`.
    pub sys_exit: usize,
}

/// The names that a list of registers holds.
pub open spec fn names(regs: Seq<&'static str>) -> Seq<Seq<char>> {
    regs.map_values(|r: &'static str| r@)
}

/// The numbers of `write`, `read`, `close` and `exit`, in this order.
pub open spec fn call_numbers(abi: SyscallABI) -> (int, int, int, int) {
    (abi.sys_write as int, abi.sys_read as int, abi.sys_close as int, abi.sys_exit as int)
}

/// The convention of x86_64: `syscall`, with the number and the result in
/// `rax`. The instruction overwrites `rcx` and `r11`.
pub fn x86_64_abi() -> (abi: SyscallABI)
    ensures
        abi.arch@ == "x86_64"@,
        abi.instruction@ == "syscall"@,
        abi.id_reg@ == "rax"@,
        abi.ret_reg@ == "rax"@,
        names(abi.arg_regs@) == seq!["rdi"@, "rsi"@, "rdx"@, "r10"@, "r8"@, "r9"@],
        names(abi.clobbered@) == seq!["rcx"@, "r11"@],
        call_numbers(abi) == (1int, 0int, 3int, 60int),
{
    SyscallABI {
        arch: "x86_64",
        instruction: "syscall",
        id_reg: "rax",
        ret_reg: "rax",
        arg_regs: &["rdi", "rsi", "rdx", "r10", "r8", "r9"],
        clobbered: &["rcx", "r11"],
        sys_write: 1,
        sys_read: 0,
        sys_close: 3,
        sys_exit: 60,
    }
}

/// The convention of aarch64: `svc #0`, with the number in `x8` and the
/// result in `x0`. The numbers are those of the generic table, which
/// riscv64 uses too.
pub fn aarch64_abi() -> (abi: SyscallABI)
    ensures
        abi.arch@ == "aarch64"@,
        abi.instruction@ == "svc #0"@,
        abi.id_reg@ == "x8"@,
        abi.ret_reg@ == "x0"@,
        names(abi.arg_regs@) == seq!["x0"@, "x1"@, "x2"@, "x3"@, "x4"@, "x5"@],
        names(abi.clobbered@) == Seq::<Seq<char>>::empty(),
        call_numbers(abi) == (64int, 63int, 57int, 93int),
{
    SyscallABI {
        arch: "aarch64",
        instruction: "svc #0",
        id_reg: "x8",
        ret_reg: "x0",
        arg_regs: &["x0", "x1", "x2", "x3", "x4", "x5"],
        clobbered: &[],
        sys_write: 64,
        sys_read: 63,
        sys_close: 57,
        sys_exit: 93,
    }
}

/// The convention of riscv64: `ecall`, with the number in `a7` and the
/// result in `a0`. The numbers are those of the generic table, which
/// aarch64 uses too.
pub fn riscv64_abi() -> (abi: SyscallABI)
    ensures
        abi.arch@ == "riscv64"@,
        abi.instruction@ == "ecall"@,
        abi.id_reg@ == "a7"@,
        abi.ret_reg@ == "a0"@,
        names(abi.arg_regs@) == seq!["a0"@, "a1"@, "a2"@, "a3"@, "a4"@, "a5"@],
        names(abi.clobbered@) == Seq::<Seq<char>>::empty(),
        call_numbers(abi) == (64int, 63int, 57int, 93int),
{
    SyscallABI {
        arch: "riscv64",
        instruction: "ecall",
        id_reg: "a7",
        ret_reg: "a0",
        arg_regs: &["a0", "a1", "a2", "a3", "a4", "a5"],
        clobbered: &[],
        sys_write: 64,
        sys_read: 63,
        sys_close: 57,
        sys_exit: 93,
    }
}

} // verus!
