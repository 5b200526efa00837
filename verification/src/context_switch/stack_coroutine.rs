//! The context of a task on riscv64: the registers that a switch between
//! tasks has to save and restore.

use vstd::prelude::*;

verus! {

/// The size of the stack of one coroutine, in bytes.
pub const STACK_SIZE: usize = 65536;

/// The registers that the callee saves: the stack pointer, the return
/// address and `s0` to `s11`.
#[derive(Debug, Default)]
pub struct TaskContext {
    pub sp: u64,
    pub ra: u64,
    pub s0: u64,
    pub s1: u64,
    pub s2: u64,
    pub s3: u64,
    pub s4: u64,
    pub s5: u64,
    pub s6: u64,
    pub s7: u64,
    pub s8: u64,
    pub s9: u64,
    pub s10: u64,
    pub s11: u64,
}

/// The largest address below or at `addr` that is a multiple of 16, as the
/// ABI asks of the stack pointer at the entry of a function.
pub open spec fn aligned_down(addr: nat) -> nat {
    (addr - addr % 16) as nat
}

/// The context in which every register is zero.
pub open spec fn zeroed() -> TaskContext {
    TaskContext {
        sp: 0,
        ra: 0,
        s0: 0,
        s1: 0,
        s2: 0,
        s3: 0,
        s4: 0,
        s5: 0,
        s6: 0,
        s7: 0,
        s8: 0,
        s9: 0,
        s10: 0,
        s11: 0,
    }
}

impl TaskContext {
    /// A context with every register zero.
    pub fn empty() -> (ctx: Self)
        ensures
            ctx == zeroed(),
    {
        TaskContext {
            sp: 0,
            ra: 0,
            s0: 0,
            s1: 0,
            s2: 0,
            s3: 0,
            s4: 0,
            s5: 0,
            s6: 0,
            s7: 0,
            s8: 0,
            s9: 0,
            s10: 0,
            s11: 0,
        }
    }

    /// Prepares the context so that a switch to it starts execution at
    /// `entry` on the stack that ends at `stack_top`: the return address is
    /// `entry`, the stack pointer is `stack_top` rounded down to a multiple
    /// of 16, and `s0` to `s11` are zero.
    pub fn init(&mut self, stack_top: usize, entry: usize)
        ensures
            *final(self) == (TaskContext {
                sp: aligned_down(stack_top as nat) as u64,
                ra: entry as u64,
                ..zeroed()
            }),
            final(self).sp % 16 == 0,
            final(self).sp <= stack_top < final(self).sp + 16,
    {
        let top = stack_top as u64;
        let sp = top - top % 16;
        *self = TaskContext {
            sp,
            ra: entry as u64,
            s0: 0,
            s1: 0,
            s2: 0,
            s3: 0,
            s4: 0,
            s5: 0,
            s6: 0,
            s7: 0,
            s8: 0,
            s9: 0,
            s10: 0,
            s11: 0,
        };
    }
}

} // verus!
