//! The six system-call argument registers, captured at call entry.

use vstd::prelude::*;

use crate::tracee::Regs;

verus! {

/// An ordered 6-tuple of machine-word arguments, taken from the fixed
/// argument-passing registers at syscall entry and immutable once captured.
#[derive(Debug, Clone, Copy, PartialEq, Eq, Structural)]
pub struct SyscallArgs(
    pub usize,
    pub usize,
    pub usize,
    pub usize,
    pub usize,
    pub usize,
);

/// The argument tuple a register snapshot captures, in the kernel
/// calling-convention order: rdi, rsi, rdx, r10, r8, r9.
pub open spec fn args_of_regs(regs: Regs) -> SyscallArgs {
    SyscallArgs(
        regs.rdi as usize,
        regs.rsi as usize,
        regs.rdx as usize,
        regs.r10 as usize,
        regs.r8 as usize,
        regs.r9 as usize,
    )
}

impl SyscallArgs {
    /// Capture the argument registers in their kernel calling-convention
    /// order: rdi, rsi, rdx, r10, r8, r9.
    pub fn new(regs: &Regs) -> (r: SyscallArgs)
        ensures
            r == args_of_regs(*regs),
            r.0 == regs.rdi as usize,
            r.1 == regs.rsi as usize,
            r.2 == regs.rdx as usize,
            r.3 == regs.r10 as usize,
            r.4 == regs.r8 as usize,
            r.5 == regs.r9 as usize,
    {
        SyscallArgs(
            regs.rdi as usize,
            regs.rsi as usize,
            regs.rdx as usize,
            regs.r10 as usize,
            regs.r8 as usize,
            regs.r9 as usize,
        )
    }
}

} // verus!
