//! The tracee handle: the single point of interaction with the traced
//! process.  It owns the wait/continue protocol, remote memory access,
//! register and debug-register access, and the one-slot buffer of a
//! pending signal awaiting re-delivery.

use vstd::prelude::*;

use std::io::IoSliceMut;

use nix::sys::ptrace;
use nix::sys::signal::Signal;
use nix::sys::uio::{process_vm_readv, RemoteIoVec};
use nix::sys::wait::{waitpid, WaitStatus};
use nix::unistd::Pid;

use crate::maps::{find_byte_exec, lemma_find_from_bounds, translate_address_in};
use crate::syscall::parse_error::SyscallParseError;
use crate::syscall::SyscallDiscriminants;
use crate::text::{dec_bytes, dec_chars, push_dec, push_dec_bytes};

verus! {

/// The trap signal that carries the tracer's own instrumentation stops.
pub const SIGTRAP: i32 = 5;

/// The child-death notification signal, swallowed transparently so that
/// forked children never register as top-level stops.
pub const SIGCHLD: i32 = 17;

/// Kernel event codes reported with a trap stop when the matching trace
/// option is set.
pub const PTRACE_EVENT_FORK: i32 = 1;

pub const PTRACE_EVENT_CLONE: i32 = 3;

pub const PTRACE_EVENT_EXEC: i32 = 4;

/// Trace option bits, as the kernel defines them.
pub const PTRACE_O_TRACESYSGOOD: i32 = 0x1;

pub const PTRACE_O_TRACEEXEC: i32 = 0x10;

pub const PTRACE_O_EXITKILL: i32 = 0x100000;

/// Upper bound on a null-terminated remote string read.
pub const MAX_BYTES_CSTRING: usize = 2048 * 1024;

/// Chunk size of one remote memory read while scanning for a terminator.
pub const BUFFER_SIZE: usize = 128;

/// Upper bound on the mapping-table text read in one translation.
pub const MAPS_READ_LIMIT: usize = 1024 * 1024;

/// Chunk size of one file read; also how much of the executable image
/// is read for its header.
pub const READ_CHUNK: usize = 4096;

/// Bound on transparently swallowed child-death stops per wait; beyond it
/// the stop is reported as an unexpected state instead of looping forever.
pub const SIGCHLD_RETRY_LIMIT: usize = 1024 * 1024;

/// Byte offset of the `rax` slot in the kernel's per-thread user register
/// area: slot index 10, 8 bytes per slot.
const RAX_USER_OFFSET: usize = 80;

/// Byte offset of the debug-register array in the kernel's per-thread
/// user area on x86-64.
const USER_DEBUGREG_OFFSET: usize = 848;

/// Debug-control register: the reserved bit the hardware defines as
/// always set.
const DR7_RESERVED_ONE: i64 = 0x400;

/// Debug-control register: local enable of breakpoint 0.  With its
/// condition and size fields left zero the breakpoint fires on
/// instruction execution at 1-byte granularity.
const DR7_LOCAL_BP0: i64 = 0x1;

/// Debug-status register: breakpoint 0 triggered.
pub const DR6_BP0_HIT: i64 = 0x1;

/// The "invalid argument" error code, reported when a remote read would
/// run past the end of the address space.
const EINVAL: i32 = 22;

/// The registers of the tracee that the decoder reads: the syscall number
/// slot, the return slot, and the six argument registers.
#[derive(Debug, Clone, Copy, PartialEq, Eq, Structural)]
pub struct Regs {
    pub orig_rax: u64,
    pub rax: u64,
    pub rdi: u64,
    pub rsi: u64,
    pub rdx: u64,
    pub r10: u64,
    pub r8: u64,
    pub r9: u64,
}

/// One reported state change of the tracee, with plain fields: signals
/// and event codes as raw numbers.
#[derive(Debug, Clone, Copy, PartialEq, Eq, Structural)]
pub enum RawWaitStatus {
    Exited { code: i32 },
    Signaled { signal: i32, core_dumped: bool },
    Stopped { signal: i32 },
    PtraceEvent { signal: i32, event: i32 },
    PtraceSyscall,
    Continued,
    StillAlive,
}

/// The classified stops a caller of `wait_for_stop` can observe.
#[derive(Debug, Clone, Copy, PartialEq, Eq, Structural)]
pub enum WaitEvents {
    Syscall,
    Fork,
    Exec,
    Stopped(i32),
    Clone,
}

/// What one raw wait status means: either a classified stop or a failure.
#[derive(Debug, Clone, Copy, PartialEq, Eq, Structural)]
pub enum WaitOutcome {
    Event(WaitEvents),
    Fail(SyscallParseError),
}

/// The meaning of each raw wait status.  Trap-signalled kernel events map
/// to their classified stops; an exit or a termination ends the trace; a
/// state outside the taxonomy is reported, never guessed at.
pub open spec fn wait_outcome_of(status: RawWaitStatus) -> WaitOutcome {
    match status {
        RawWaitStatus::PtraceEvent { signal, event } => {
            if signal == SIGTRAP && event == PTRACE_EVENT_EXEC {
                WaitOutcome::Event(WaitEvents::Exec)
            } else if signal == SIGTRAP && event == PTRACE_EVENT_FORK {
                WaitOutcome::Event(WaitEvents::Fork)
            } else if signal == SIGTRAP && event == PTRACE_EVENT_CLONE {
                WaitOutcome::Event(WaitEvents::Clone)
            } else {
                WaitOutcome::Fail(SyscallParseError::UnexpectedWaitStatus(status))
            }
        },
        RawWaitStatus::PtraceSyscall => WaitOutcome::Event(WaitEvents::Syscall),
        RawWaitStatus::Stopped { signal } => WaitOutcome::Event(WaitEvents::Stopped(signal)),
        RawWaitStatus::Exited { code } => WaitOutcome::Fail(SyscallParseError::ProcessExit(code)),
        RawWaitStatus::Signaled { signal, core_dumped } => WaitOutcome::Fail(
            SyscallParseError::Terminated { signal, core_dumped },
        ),
        RawWaitStatus::Continued => WaitOutcome::Fail(
            SyscallParseError::UnexpectedWaitStatus(status),
        ),
        RawWaitStatus::StillAlive => WaitOutcome::Fail(
            SyscallParseError::UnexpectedWaitStatus(status),
        ),
    }
}

/// Classify one raw wait status.
pub fn classify_wait(status: RawWaitStatus) -> (r: WaitOutcome)
    ensures
        r == wait_outcome_of(status),
{
    match status {
        RawWaitStatus::PtraceEvent { signal, event } => {
            if signal == SIGTRAP && event == PTRACE_EVENT_EXEC {
                WaitOutcome::Event(WaitEvents::Exec)
            } else if signal == SIGTRAP && event == PTRACE_EVENT_FORK {
                WaitOutcome::Event(WaitEvents::Fork)
            } else if signal == SIGTRAP && event == PTRACE_EVENT_CLONE {
                WaitOutcome::Event(WaitEvents::Clone)
            } else {
                WaitOutcome::Fail(SyscallParseError::UnexpectedWaitStatus(status))
            }
        },
        RawWaitStatus::PtraceSyscall => WaitOutcome::Event(WaitEvents::Syscall),
        RawWaitStatus::Stopped { signal } => WaitOutcome::Event(WaitEvents::Stopped(signal)),
        RawWaitStatus::Exited { code } => WaitOutcome::Fail(SyscallParseError::ProcessExit(code)),
        RawWaitStatus::Signaled { signal, core_dumped } => WaitOutcome::Fail(
            SyscallParseError::Terminated { signal, core_dumped },
        ),
        RawWaitStatus::Continued => WaitOutcome::Fail(
            SyscallParseError::UnexpectedWaitStatus(status),
        ),
        RawWaitStatus::StillAlive => WaitOutcome::Fail(
            SyscallParseError::UnexpectedWaitStatus(status),
        ),
    }
}

/// Decimal spelling of a pid as bytes, a minus sign leading when it is
/// negative.
pub open spec fn pid_dec_bytes(pid: i32) -> Seq<u8> {
    if pid >= 0 {
        dec_bytes(pid as nat)
    } else {
        seq![45u8] + dec_bytes((-(pid as int)) as nat)
    }
}

/// The path of a tracee's live memory-mapping table, byte for byte:
/// `/proc/<pid>/task/<pid>/maps`.
pub open spec fn maps_path_bytes(pid: i32) -> Seq<u8> {
    seq![47u8, 112u8, 114u8, 111u8, 99u8, 47u8]  // "/proc/"
     + pid_dec_bytes(pid) + seq![47u8, 116u8, 97u8, 115u8, 107u8, 47u8]  // "/task/"
     + pid_dec_bytes(pid) + seq![47u8, 109u8, 97u8, 112u8, 115u8]  // "/maps"

}

/// The path of a tracee's loaded executable image, byte for byte:
/// `/proc/<pid>/exe`.
pub open spec fn exe_path_bytes(pid: i32) -> Seq<u8> {
    seq![47u8, 112u8, 114u8, 111u8, 99u8, 47u8]  // "/proc/"
     + pid_dec_bytes(pid) + seq![47u8, 101u8, 120u8, 101u8]  // "/exe"

}

/// The one-slot buffer of a signal awaiting re-delivery.  The trap signal
/// is the tracer's own instrumentation signal and is never buffered.
pub struct SignalStorage {
    pub signal: Option<i32>,
}

impl Default for SignalStorage {
    fn default() -> (r: SignalStorage)
        ensures
            r.signal is None,
    {
        SignalStorage { signal: None }
    }
}

impl SignalStorage {
    /// Buffer `signal` for re-delivery, unless it is the trap signal.
    pub fn store(&mut self, signal: i32)
        ensures
            signal != SIGTRAP ==> final(self).signal == Some(signal),
            signal == SIGTRAP ==> final(self).signal == old(self).signal,
    {
        if signal != SIGTRAP {
            self.signal = Some(signal);
        }
    }

    /// Drain the buffer: what comes out is re-delivered exactly once.
    pub fn get(&mut self) -> (r: Option<i32>)
        ensures
            r == old(self).signal,
            final(self).signal is None,
    {
        let signal = self.signal;
        self.signal = None;
        signal
    }
}

/// Relies on nix::sys::wait::waitpid with no flags: blocks until the
/// tracee changes state; each variant is carried over field for field,
/// signals and event codes as their raw numbers.
#[verifier::external_body]
fn wait_next_status(pid: i32) -> (r: Result<RawWaitStatus, i32>) {
    match waitpid(Pid::from_raw(pid), None) {
        Ok(WaitStatus::Exited(_, code)) => Ok(RawWaitStatus::Exited { code }),
        Ok(WaitStatus::Signaled(_, s, core_dumped)) => Ok(RawWaitStatus::Signaled { signal: s as i32, core_dumped }),
        Ok(WaitStatus::Stopped(_, s)) => Ok(RawWaitStatus::Stopped { signal: s as i32 }),
        Ok(WaitStatus::PtraceEvent(_, s, event)) => Ok(RawWaitStatus::PtraceEvent { signal: s as i32, event }),
        Ok(WaitStatus::PtraceSyscall(_)) => Ok(RawWaitStatus::PtraceSyscall),
        Ok(WaitStatus::Continued(_)) => Ok(RawWaitStatus::Continued),
        Ok(WaitStatus::StillAlive) => Ok(RawWaitStatus::StillAlive),
        Err(e) => Err(e as i32),
    }
}

/// Relies on nix::sys::ptrace::syscall: resumes the tracee until the next
/// syscall boundary, delivering the given signal number if any.  A number
/// outside the platform's signal set converts to "deliver nothing"; only
/// numbers that came from the wait ever reach this.
#[verifier::external_body]
fn ptrace_syscall_step(pid: i32, sig: Option<i32>) -> (r: Result<(), i32>) {
    let signal: Option<Signal> = match sig {
        Some(v) => Signal::try_from(v).ok(),
        None => None,
    };
    ptrace::syscall(Pid::from_raw(pid), signal).map_err(|e| e as i32)
}

/// Relies on nix::sys::ptrace::cont: resumes the tracee until its next
/// stop, delivering the given signal number if any.  A number outside the
/// platform's signal set converts to "deliver nothing"; only numbers that
/// came from the wait ever reach this.
#[verifier::external_body]
fn ptrace_cont_run(pid: i32, sig: Option<i32>) -> (r: Result<(), i32>) {
    let signal: Option<Signal> = match sig {
        Some(v) => Signal::try_from(v).ok(),
        None => None,
    };
    ptrace::cont(Pid::from_raw(pid), signal).map_err(|e| e as i32)
}

/// Relies on nix::sys::ptrace::setoptions: sets the trace option bits.
#[verifier::external_body]
fn ptrace_set_options(pid: i32, bits: i32) -> (r: Result<(), i32>) {
    let options = ptrace::Options::from_bits_truncate(bits);
    ptrace::setoptions(Pid::from_raw(pid), options).map_err(|e| e as i32)
}

/// Relies on nix::sys::ptrace::getregs: reads the register file; the
/// slots the decoder needs are carried over field for field.
#[verifier::external_body]
fn ptrace_get_regs(pid: i32) -> (r: Result<Regs, i32>) {
    let u = ptrace::getregs(Pid::from_raw(pid)).map_err(|e| e as i32)?;
    Ok(Regs {
        orig_rax: u.orig_rax,
        rax: u.rax,
        rdi: u.rdi,
        rsi: u.rsi,
        rdx: u.rdx,
        r10: u.r10,
        r8: u.r8,
        r9: u.r9,
    })
}

/// Relies on nix::sys::ptrace::read: reads one word of the tracee's
/// memory at the given address.
#[verifier::external_body]
fn ptrace_peek_data(pid: i32, addr: usize) -> (r: Result<i64, i32>) {
    ptrace::read(Pid::from_raw(pid), addr as ptrace::AddressType).map_err(|e| e as i32)
}

/// Relies on nix::sys::ptrace::write: writes one word into the tracee's
/// memory at the given address.
#[verifier::external_body]
fn ptrace_poke_data(pid: i32, addr: usize, word: i64) -> (r: Result<(), i32>) {
    ptrace::write(Pid::from_raw(pid), addr as ptrace::AddressType, word).map_err(|e| e as i32)
}

/// Relies on nix::sys::ptrace::read_user: reads one word of the tracee's
/// user register area at the given byte offset.
#[verifier::external_body]
fn ptrace_peek_user(pid: i32, offset: usize) -> (r: Result<i64, i32>) {
    ptrace::read_user(Pid::from_raw(pid), offset as ptrace::AddressType).map_err(|e| e as i32)
}

/// Relies on nix::sys::ptrace::write_user: writes one word into the
/// tracee's user register area at the given byte offset.
#[verifier::external_body]
fn ptrace_poke_user(pid: i32, offset: usize, word: i64) -> (r: Result<(), i32>) {
    ptrace::write_user(Pid::from_raw(pid), offset as ptrace::AddressType, word).map_err(
        |e| e as i32,
    )
}

/// Relies on nix::sys::uio::process_vm_readv: fills a fresh buffer of
/// exactly `len` bytes from the tracee's memory and reports how many
/// bytes the kernel actually copied, never more than requested.
#[verifier::external_body]
fn vm_read_chunk(pid: i32, base: usize, len: usize) -> (r: Result<(Vec<u8>, usize), i32>)
    ensures
        r matches Ok(p) ==> p.0@.len() == len && p.1 <= len,
{
    let mut data: Vec<u8> = vec![0u8; len];
    let n = process_vm_readv(
        Pid::from_raw(pid),
        &mut [IoSliceMut::new(&mut data)],
        &[RemoteIoVec { base, len }],
    ).map_err(|e| e as i32)?;
    Ok((data, n))
}

/// Relies on rustix::fs::open: opens the file at the given path bytes
/// read-only.
#[verifier::external_body]
fn open_readonly(path: &Vec<u8>) -> (r: Result<rustix::fd::OwnedFd, i32>) {
    rustix::fs::open(path, rustix::fs::OFlags::RDONLY, rustix::fs::Mode::empty()).map_err(
        |e| e.raw_os_error(),
    )
}

/// Relies on rustix::io::read: fills a fresh buffer of exactly `len`
/// bytes from the open file and reports how many bytes were read, never
/// more than requested; zero means end of file.
#[verifier::external_body]
fn fd_read_chunk(fd: &rustix::fd::OwnedFd, len: usize) -> (r: Result<(Vec<u8>, usize), i32>)
    ensures
        r matches Ok(p) ==> p.0@.len() == len && p.1 <= len,
{
    let mut buf: Vec<u8> = vec![0u8; len];
    let n = rustix::io::read(fd, buf.as_mut_slice()).map_err(|e| e.raw_os_error())?;
    Ok((buf, n))
}

/// An open file, opaque to the verifier; it closes when dropped.
#[verifier::external_type_specification]
#[verifier::external_body]
pub struct ExOwnedFd(rustix::fd::OwnedFd);

/// Byte offset of debug register `reg_pos` in the user register area.
/// There are only 8 debug registers, counting from 0 to 7.
fn debugreg_offset(reg_pos: usize) -> (r: usize)
    requires
        reg_pos < 8,
    ensures
        r == USER_DEBUGREG_OFFSET + 8 * reg_pos,
{
    USER_DEBUGREG_OFFSET + 8 * reg_pos
}

/// The OS error code a failed syscall's negative return value carries:
/// the return's magnitude.
pub fn parse_syscall_error(return_value: i64) -> (r: i32)
    ensures
        -0x8000_0000 < return_value < 0x8000_0000 ==> r == -return_value,
{
    let mag: i64 = if return_value == i64::MIN {
        i64::MIN
    } else {
        -return_value
    };
    #[verifier::truncate]
    (mag as i32)
}

/// The tracee handle.  It is the exclusive owner of all pid-scoped access;
/// it is never copied, only passed by reference.
pub struct Tracee {
    pub pid: i32,
    pub signal: SignalStorage,
}

impl Tracee {
    /// Take ownership of an already-attached, already-stopped child.
    pub fn new(pid: i32) -> (r: Tracee)
        ensures
            r.pid == pid,
            r.signal.signal is None,
    {
        Tracee { pid, signal: SignalStorage::default() }
    }

    /// Block until the tracee changes state and classify the change.  A
    /// child-death notification stop is swallowed transparently: the
    /// signal is buffered, the tracee resumed toward the next syscall
    /// boundary, and the wait repeated (up to a liveness cap, beyond
    /// which the stop is reported as an unexpected state).
    pub fn wait_for_stop(&mut self) -> (r: Result<WaitEvents, SyscallParseError>)
        ensures
            final(self).pid == old(self).pid,
            r matches Ok(WaitEvents::Stopped(sig)) ==> sig != SIGCHLD,
            !(r matches Err(SyscallParseError::SyscallError { .. })),
            r matches Ok(WaitEvents::Stopped(sig)) ==> (sig != SIGTRAP
                ==> final(self).signal.signal == Some(sig)),
            final(self).signal.signal == old(self).signal.signal || final(self).signal.signal
                is None || r matches Ok(WaitEvents::Stopped(_)),
    {
        let mut tries: usize = 0;
        loop
            invariant
                self.pid == old(self).pid,
                tries <= SIGCHLD_RETRY_LIMIT,
                self.signal.signal == old(self).signal.signal || self.signal.signal is None,
            decreases SIGCHLD_RETRY_LIMIT - tries,
        {
            let status = match wait_next_status(self.pid) {
                Ok(s) => s,
                Err(e) => {
                    return Err(SyscallParseError::WaitPidError(e));
                },
            };
            match classify_wait(status) {
                WaitOutcome::Fail(err) => {
                    return Err(err);
                },
                WaitOutcome::Event(ev) => {
                    match ev {
                        WaitEvents::Stopped(sig) => {
                            if sig == SIGCHLD {
                                if tries == SIGCHLD_RETRY_LIMIT {
                                    return Err(
                                        SyscallParseError::UnexpectedWaitStatus(status),
                                    );
                                }
                                self.signal.store(sig);
                                match self.syscall() {
                                    Ok(_) => {},
                                    Err(e) => {
                                        return Err(SyscallParseError::PtraceError(e));
                                    },
                                }
                                tries = tries + 1;
                            } else {
                                self.signal.store(sig);
                                return Ok(WaitEvents::Stopped(sig));
                            }
                        },
                        other => {
                            return Ok(other);
                        },
                    }
                },
            }
        }
    }

    /// Bulk remote memory read.  An address of zero is the "no buffer"
    /// sentinel and yields a single zero byte instead of a read.
    pub fn memcpy(&self, base: usize, len: usize) -> (r: Result<Vec<u8>, i32>)
        ensures
            base == 0 ==> (r matches Ok(v) && v@ == seq![0u8]),
            base != 0 ==> (r matches Ok(v) ==> v@.len() == len),
    {
        if base == 0 {
            let mut v: Vec<u8> = Vec::new();
            v.push(0);
            assert(v@ =~= seq![0u8]);
            return Ok(v);
        }
        match vm_read_chunk(self.pid, base, len) {
            Ok((data, _n)) => Ok(data),
            Err(e) => Err(e),
        }
    }

    /// Read remote memory in fixed-size chunks until a byte equal to
    /// `stop` is found or the upper bound is reached.  Everything read is
    /// returned, the terminator included when found; no byte before the
    /// last one equals `stop`, and a result short of the cap always ends
    /// with the terminator.  Hitting the cap truncates: the prefix read
    /// so far comes back, which is not an error.
    pub fn memcpy_until(&self, base: usize, stop: u8) -> (r: Result<Vec<u8>, i32>)
        ensures
            base == 0 ==> (r matches Ok(v) && v@ == seq![0u8]),
            r matches Ok(v) ==> v@.len() >= 1 && v@.len() < MAX_BYTES_CSTRING + BUFFER_SIZE,
            base != 0 ==> (r matches Ok(v) ==> forall|i: int|
                0 <= i < v@.len() - 1 ==> v@[i] != stop),
            base != 0 ==> (r matches Ok(v) ==> (v@.len() < MAX_BYTES_CSTRING ==> v@[v@.len()
                - 1] == stop)),
    {
        if base == 0 {
            let mut v: Vec<u8> = Vec::new();
            v.push(0);
            assert(v@ =~= seq![0u8]);
            return Ok(v);
        }
        let mut data: Vec<u8> = Vec::new();
        let mut total_bytes_read: usize = 0;
        loop
            invariant_except_break
                data@.len() < MAX_BYTES_CSTRING + BUFFER_SIZE,
                forall|i: int| 0 <= i < data@.len() ==> data@[i] != stop,
                base != 0,
            ensures
                data@.len() >= 1,
                data@.len() < MAX_BYTES_CSTRING + BUFFER_SIZE,
                forall|i: int| 0 <= i < data@.len() - 1 ==> data@[i] != stop,
                data@.len() < MAX_BYTES_CSTRING ==> data@[data@.len() - 1] == stop,
            decreases MAX_BYTES_CSTRING + BUFFER_SIZE - data@.len(),
        {
            if data.len() >= MAX_BYTES_CSTRING {
                break ;
            }
            let step = match base.checked_add(total_bytes_read) {
                Some(a) => a,
                None => {
                    return Err(EINVAL);
                },
            };
            let (buf, n) = match vm_read_chunk(self.pid, step, BUFFER_SIZE) {
                Ok(p) => p,
                Err(e) => {
                    return Err(e);
                },
            };
            total_bytes_read = match total_bytes_read.checked_add(n) {
                Some(t) => t,
                None => {
                    return Err(EINVAL);
                },
            };
            match find_byte_exec(buf.as_slice(), 0, stop) {
                Some(index) => {
                    proof {
                        lemma_find_from_bounds(buf@, 0, stop);
                    }
                    let ghost prior = data@;
                    let part = vstd::slice::slice_subrange(buf.as_slice(), 0, index + 1);
                    data.extend_from_slice(part);
                    proof {
                        assert forall|i: int| 0 <= i < data@.len() - 1 implies data@[i]
                            != stop by {
                            if i < prior.len() {
                                assert(data@[i] == prior[i]);
                            } else {
                                assert(data@[i] == buf@[i - prior.len()]);
                            }
                        }
                        assert(data@[data@.len() - 1] == buf@[index as int]);
                    }
                    break ;
                },
                None => {
                    proof {
                        lemma_find_from_bounds(buf@, 0, stop);
                    }
                    data.extend_from_slice(buf.as_slice());
                },
            }
        }
        Ok(data)
    }

    /// Read a null-terminated byte string out of the tracee: every byte
    /// before the last is nonzero, and the string ends with its zero
    /// terminator whenever that lies within the cap.
    pub fn strcpy(&self, base: usize) -> (r: Result<Vec<u8>, i32>)
        ensures
            base == 0 ==> (r matches Ok(v) && v@ == seq![0u8]),
            r matches Ok(v) ==> v@.len() >= 1 && v@.len() < MAX_BYTES_CSTRING + BUFFER_SIZE,
            base != 0 ==> (r matches Ok(v) ==> forall|i: int|
                0 <= i < v@.len() - 1 ==> v@[i] != 0),
            r matches Ok(v) ==> (v@.len() < MAX_BYTES_CSTRING ==> v@[v@.len() - 1] == 0),
    {
        self.memcpy_until(base, 0)
    }

    /// Read the return-value register of the stopped tracee.
    pub fn read_rax(&self) -> (r: Result<i64, SyscallParseError>)
        ensures
            r matches Err(e) ==> e is PtraceError,
    {
        match ptrace_peek_user(self.pid, RAX_USER_OFFSET) {
            Ok(v) => Ok(v),
            Err(e) => Err(SyscallParseError::PtraceError(e)),
        }
    }

    /// Read the register slots the decoder needs.
    pub fn getregs(&self) -> (r: Result<Regs, i32>) {
        ptrace_get_regs(self.pid)
    }

    /// Read one word of the tracee's memory.
    pub fn read(&self, addr: usize) -> (r: Result<i64, i32>) {
        ptrace_peek_data(self.pid, addr)
    }

    /// Read one word of the tracee's user register area.
    pub fn read_user(&self, addr: usize) -> (r: Result<i64, i32>) {
        ptrace_peek_user(self.pid, addr)
    }

    /// Write one word into the tracee's memory.
    pub fn write(&self, addr: usize, data: i64) -> (r: Result<(), i32>) {
        ptrace_poke_data(self.pid, addr, data)
    }

    /// Write one word into the tracee's user register area.
    pub fn write_user(&self, addr: usize, data: i64) -> (r: Result<(), i32>) {
        ptrace_poke_user(self.pid, addr, data)
    }

    /// Configure which kernel events are reported.
    pub fn setoptions(&self, options: i32) -> (r: Result<(), i32>) {
        ptrace_set_options(self.pid, options)
    }

    /// Resume to the syscall exit boundary, read the return value, and
    /// classify it: a non-negative value is the result, a negative one is
    /// the OS error code of a failed call.
    pub fn parse_return(&mut self, syscall: SyscallDiscriminants) -> (r: Result<
        i64,
        SyscallParseError,
    >)
        ensures
            final(self).pid == old(self).pid,
            r matches Ok(v) ==> v >= 0,
            r matches Err(SyscallParseError::SyscallError { syscall: s, error: _ }) ==> s
                == syscall,
    {
        match self.syscall() {
            Ok(_) => {},
            Err(e) => {
                return Err(SyscallParseError::PtraceError(e));
            },
        }
        match self.wait_for_stop() {
            Ok(_) => {},
            Err(e) => {
                return Err(e);
            },
        }
        let ret = match self.read_rax() {
            Ok(v) => v,
            Err(e) => {
                return Err(e);
            },
        };
        check_return(syscall, ret)
    }

    /// Resume the tracee until the next syscall boundary, re-delivering
    /// and draining any buffered signal.
    pub fn syscall(&mut self) -> (r: Result<(), i32>)
        ensures
            final(self).pid == old(self).pid,
            final(self).signal.signal is None,
    {
        let sig = self.signal.get();
        ptrace_syscall_step(self.pid, sig)
    }

    /// Resume the tracee without syscall-granularity tracing,
    /// re-delivering and draining any buffered signal.
    pub fn cont(&mut self) -> (r: Result<(), i32>)
        ensures
            final(self).pid == old(self).pid,
            final(self).signal.signal is None,
    {
        let sig = self.signal.get();
        ptrace_cont_run(self.pid, sig)
    }

    /// Translate a file-relative address by scanning the tracee's live
    /// memory-mapping table.  The scan over the table text is exact: see
    /// `crate::maps::translate_address_in`.
    pub fn translate_address(&self, requested_addr: usize) -> (r: Result<Option<usize>, i32>) {
        let path = self.maps_path();
        let fd = match open_readonly(&path) {
            Ok(fd) => fd,
            Err(e) => {
                return Err(e);
            },
        };
        let data = match read_capped(&fd, MAPS_READ_LIMIT) {
            Ok(d) => d,
            Err(e) => {
                return Err(e);
            },
        };
        Ok(translate_address_in(data.as_slice(), requested_addr))
    }

    /// Install a one-shot hardware execution breakpoint at the translated
    /// address: debug register 0 holds the address, the debug-control
    /// register enables it locally for instruction execution at 1-byte
    /// granularity.  Code memory is not modified.
    pub fn add_local_breakpoint(&self, break_address: usize) -> (r: Result<(), i32>) {
        let dr7: i64 = DR7_RESERVED_ONE | DR7_LOCAL_BP0;
        let word: i64 = #[verifier::truncate] (break_address as i64);
        match ptrace_poke_user(self.pid, debugreg_offset(0), word) {
            Ok(_) => {},
            Err(e) => {
                return Err(e);
            },
        }
        ptrace_poke_user(self.pid, debugreg_offset(7), dr7)
    }

    /// Check whether breakpoint 0 triggered, by the debug-status
    /// register's trigger bit.  A sanity assertion, not control flow:
    /// what the register value means is decided by `breakpoint_hit`.
    pub fn check_break(&self) -> (r: Result<bool, i32>) {
        let dr6 = match ptrace_peek_user(self.pid, debugreg_offset(6)) {
            Ok(v) => v,
            Err(e) => {
                return Err(e);
            },
        };
        Ok(breakpoint_hit(dr6))
    }

    /// The tracee's pid spelled in decimal.
    pub fn get_pid_string(&self) -> (r: String)
        ensures
            self.pid >= 0 ==> r@ == dec_chars(self.pid as nat),
            self.pid < 0 ==> r@ == seq!['-'] + dec_chars((-(self.pid as int)) as nat),
    {
        let mut s = String::new();
        if self.pid < 0 {
            proof {
                reveal_strlit("-");
            }
            s.append("-");
            let mag: u64 = (-(self.pid as i64)) as u64;
            push_dec(&mut s, mag);
            assert(s@ =~= seq!['-'] + dec_chars((-(self.pid as int)) as nat));
        } else {
            push_dec(&mut s, self.pid as u64);
            assert(s@ =~= dec_chars(self.pid as nat));
        }
        s
    }

    /// The path of the tracee's live memory-mapping table.
    fn maps_path(&self) -> (p: Vec<u8>)
        ensures
            p@ == maps_path_bytes(self.pid),
    {
        let mut p: Vec<u8> = Vec::new();
        push_proc_prefix(&mut p);
        push_pid_bytes(&mut p, self.pid);
        p.push(47);  // "/task/"
        p.push(116);
        p.push(97);
        p.push(115);
        p.push(107);
        p.push(47);
        push_pid_bytes(&mut p, self.pid);
        p.push(47);  // "/maps"
        p.push(109);
        p.push(97);
        p.push(112);
        p.push(115);
        assert(p@ =~= maps_path_bytes(self.pid));
        p
    }

    /// The path of the tracee's loaded executable image.
    fn exe_path(&self) -> (p: Vec<u8>)
        ensures
            p@ == exe_path_bytes(self.pid),
    {
        let mut p: Vec<u8> = Vec::new();
        push_proc_prefix(&mut p);
        push_pid_bytes(&mut p, self.pid);
        p.push(47);  // "/exe"
        p.push(101);
        p.push(120);
        p.push(101);
        assert(p@ =~= exe_path_bytes(self.pid));
        p
    }

    /// Read the head of the tracee's own loaded executable image, enough
    /// to hold its header: one chunk at most.
    pub fn read_exe_prefix(&self) -> (r: Result<Vec<u8>, i32>)
        ensures
            r matches Ok(v) ==> v@.len() <= READ_CHUNK,
    {
        let path = self.exe_path();
        let fd = match open_readonly(&path) {
            Ok(fd) => fd,
            Err(e) => {
                return Err(e);
            },
        };
        let (buf, n) = match fd_read_chunk(&fd, READ_CHUNK) {
            Ok(p) => p,
            Err(e) => {
                return Err(e);
            },
        };
        let mut buf = buf;
        buf.truncate(n);
        Ok(buf)
    }
}

/// Is the breakpoint-0 trigger bit of a debug-status register value set?
pub fn breakpoint_hit(dr6: i64) -> (r: bool)
    ensures
        r == ((dr6 & DR6_BP0_HIT) != 0),
{
    dr6 & DR6_BP0_HIT != 0
}

/// Classify a syscall's raw return value, tagging a failure with the
/// syscall that produced it.
pub fn check_return(syscall: SyscallDiscriminants, ret: i64) -> (r: Result<
    i64,
    SyscallParseError,
>)
    ensures
        ret >= 0 ==> r == Result::<i64, SyscallParseError>::Ok(ret),
        ret < 0 ==> (r matches Err(SyscallParseError::SyscallError { syscall: s, error: e })
            && s == syscall && (-0x8000_0000 < ret ==> e == -ret)),
{
    if ret < 0 {
        return Err(
            SyscallParseError::SyscallError { syscall, error: parse_syscall_error(ret) },
        );
    }
    Ok(ret)
}

/// Append the `/proc/` path prefix.
fn push_proc_prefix(v: &mut Vec<u8>)
    ensures
        final(v)@ == old(v)@ + seq![47u8, 112u8, 114u8, 111u8, 99u8, 47u8],
{
    v.push(47);
    v.push(112);
    v.push(114);
    v.push(111);
    v.push(99);
    v.push(47);
    assert(final(v)@ =~= old(v)@ + seq![47u8, 112u8, 114u8, 111u8, 99u8, 47u8]);
}

/// Spell the pid in decimal bytes, a leading minus sign included when it
/// is negative.
fn push_pid_bytes(v: &mut Vec<u8>, pid: i32)
    ensures
        final(v)@ == old(v)@ + pid_dec_bytes(pid),
{
    if pid < 0 {
        v.push(45);
        let mag: u64 = (-(pid as i64)) as u64;
        push_dec_bytes(v, mag);
        assert(final(v)@ =~= old(v)@ + pid_dec_bytes(pid));
    } else {
        push_dec_bytes(v, pid as u64);
        assert(final(v)@ =~= old(v)@ + pid_dec_bytes(pid));
    }
}

/// Read from an open file until end of file or the byte cap, whichever
/// comes first.
fn read_capped(fd: &rustix::fd::OwnedFd, cap: usize) -> (r: Result<Vec<u8>, i32>)
    ensures
        r matches Ok(v) ==> v@.len() <= cap,
{
    let mut data: Vec<u8> = Vec::new();
    loop
        invariant
            data@.len() <= cap,
        ensures
            data@.len() <= cap,
        decreases cap - data@.len(),
    {
        if data.len() >= cap {
            break ;
        }
        let (chunk, n) = match fd_read_chunk(fd, READ_CHUNK) {
            Ok(p) => p,
            Err(e) => {
                return Err(e);
            },
        };
        if n == 0 {
            break ;
        }
        let room = cap - data.len();
        let take = if n < room {
            n
        } else {
            room
        };
        let part = vstd::slice::slice_subrange(chunk.as_slice(), 0, take);
        data.extend_from_slice(part);
    }
    Ok(data)
}

} // verus!
