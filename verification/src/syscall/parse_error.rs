//! The failure taxonomy of one decode step.

use vstd::prelude::*;

use super::SyscallDiscriminants;
use crate::tracee::RawWaitStatus;

verus! {

/// Why one decode step failed.  A tracee-observed syscall failure
/// (`SyscallError`) is recoverable; a process exit or termination ends the
/// trace; the rest are tracer-side infrastructure errors.  OS error codes
/// are carried as raw `errno` values.
#[derive(Debug, Clone, Copy, PartialEq, Eq, Structural)]
pub enum SyscallParseError {
    /// The traced syscall itself returned a negative value: the call
    /// failed with the carried OS error code.
    SyscallError { syscall: SyscallDiscriminants, error: i32 },
    /// The tracer's own trace request failed.
    PtraceError(i32),
    /// The tracee exited normally with the carried status code.
    ProcessExit(i32),
    /// The wait reported a state outside the classified taxonomy.
    UnexpectedWaitStatus(RawWaitStatus),
    /// Waiting for the tracee's next state change failed.
    WaitPidError(i32),
    /// The OS terminated the tracee with the carried signal.
    Terminated { signal: i32, core_dumped: bool },
}

} // verus!
