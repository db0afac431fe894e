//! The syscall decode state machine: one typed event per traced call.
//!
//! A decode step waits for the syscall-entry stop, captures the registers,
//! dispatches on the syscall number, reads whatever tracee memory is only
//! valid on the entry side, resumes to the exit stop, and classifies the
//! return value.  A failed call (negative return) never yields a semantic
//! event; an unknown number always yields `Unknown`, raw and uninterpreted.

use vstd::prelude::*;

pub mod new_types;
pub mod parse_error;
pub mod syscall_args;

use crate::tracee::{Regs, Tracee, WaitEvents, SIGTRAP, PTRACE_O_TRACESYSGOOD, PTRACE_O_TRACEEXEC,
    PTRACE_O_EXITKILL};
use new_types::{decode_sockaddr, split_socket_type, u32_from_le, SockAddr, SOCKADDR_SIZE,
    SOCK_FLAGS_MASK};
pub use parse_error::SyscallParseError;
pub use syscall_args::{args_of_regs, SyscallArgs};

verus! {

/// The "no such process" error code that signals the tracee is gone.
pub const ESRCH: i32 = 3;

/// The decoded syscall kinds, used to tag errors with the call that
/// produced them.
#[derive(Debug, Clone, Copy, PartialEq, Eq, Structural)]
pub enum SyscallDiscriminants {
    Read,
    Write,
    Close,
    Socket,
    Bind,
    Listen,
    Accept,
    Openat,
    Execve,
    Clone,
    ExitGroup,
    Unknown,
}

/// The decoded outcome of one syscall.  Every non-`Unknown` variant's
/// fields come only from registers and bytes actually observed; flag and
/// mode arguments are kept as raw bit patterns so that they round-trip
/// exactly.
#[derive(Debug, Clone, PartialEq, Eq)]
pub enum Syscall {
    Read { fd: i32, read_bytes: Vec<u8>, requested_count: usize },
    Write { fd: i32, buf: Vec<u8> },
    Close { fd: i32 },
    Socket { domain: i32, sock_type: i32, sock_flags: i32, protocol: i32 },
    Bind { sockfd: i32, addr: Option<SockAddr>, addrlen: u32 },
    Listen { sockfd: i32, backlog: i32 },
    Accept { sockfd: i32, addr: Option<SockAddr>, addrlen: Option<u32> },
    Openat { dirfd: i32, pathname: Vec<u8>, flags: i32, mode: u32 },
    Execve { pathname: Vec<u8>, argv: Vec<u8>, envp: Vec<u8> },
    Clone { flags: u64, stack: usize, parent_tid: usize, child_tid: usize, tls: u64 },
    ExitGroup { status: i32 },
    Unknown { id: u64, args: SyscallArgs, return_value: i64 },
}

/// Is the syscall number in the explicitly decoded set?
pub open spec fn is_known_syscall(id: u64) -> bool {
    id == 0 || id == 1 || id == 3 || id == 41 || id == 43 || id == 49 || id == 50 || id == 56
        || id == 59 || id == 231 || id == 257
}

/// The decode kind of each syscall number; every number outside the
/// decoded set maps to `Unknown`.
pub open spec fn syscall_kind_of(id: u64) -> SyscallDiscriminants {
    if id == 0 {
        SyscallDiscriminants::Read
    } else if id == 1 {
        SyscallDiscriminants::Write
    } else if id == 3 {
        SyscallDiscriminants::Close
    } else if id == 41 {
        SyscallDiscriminants::Socket
    } else if id == 43 {
        SyscallDiscriminants::Accept
    } else if id == 49 {
        SyscallDiscriminants::Bind
    } else if id == 50 {
        SyscallDiscriminants::Listen
    } else if id == 56 {
        SyscallDiscriminants::Clone
    } else if id == 59 {
        SyscallDiscriminants::Execve
    } else if id == 231 {
        SyscallDiscriminants::ExitGroup
    } else if id == 257 {
        SyscallDiscriminants::Openat
    } else {
        SyscallDiscriminants::Unknown
    }
}

/// Dispatch on a syscall number.  `Unknown` comes out exactly for the
/// numbers outside the decoded set.
pub fn classify_syscall(id: u64) -> (r: SyscallDiscriminants)
    ensures
        r == syscall_kind_of(id),
        r == SyscallDiscriminants::Unknown <==> !is_known_syscall(id),
{
    if id == 0 {
        SyscallDiscriminants::Read
    } else if id == 1 {
        SyscallDiscriminants::Write
    } else if id == 3 {
        SyscallDiscriminants::Close
    } else if id == 41 {
        SyscallDiscriminants::Socket
    } else if id == 43 {
        SyscallDiscriminants::Accept
    } else if id == 49 {
        SyscallDiscriminants::Bind
    } else if id == 50 {
        SyscallDiscriminants::Listen
    } else if id == 56 {
        SyscallDiscriminants::Clone
    } else if id == 59 {
        SyscallDiscriminants::Execve
    } else if id == 231 {
        SyscallDiscriminants::ExitGroup
    } else if id == 257 {
        SyscallDiscriminants::Openat
    } else {
        SyscallDiscriminants::Unknown
    }
}

/// The read event decoded from the entry arguments and the buffer read
/// back after the call: the descriptor is the first argument register,
/// the requested count the third.
pub open spec fn read_event(args: SyscallArgs, bytes: Vec<u8>) -> Syscall {
    Syscall::Read { fd: args.0 as i32, read_bytes: bytes, requested_count: args.2 }
}

/// The write event decoded from the entry arguments and the caller-owned
/// buffer captured before the call.
pub open spec fn write_event(args: SyscallArgs, buf: Vec<u8>) -> Syscall {
    Syscall::Write { fd: args.0 as i32, buf: buf }
}

pub open spec fn close_event(args: SyscallArgs) -> Syscall {
    Syscall::Close { fd: args.0 as i32 }
}

/// The socket event: the type word splits into type and flag bits, which
/// recombine to the raw word exactly.
pub open spec fn socket_event(args: SyscallArgs) -> Syscall {
    Syscall::Socket {
        domain: args.0 as i32,
        sock_type: (args.1 as i32) & !SOCK_FLAGS_MASK,
        sock_flags: (args.1 as i32) & SOCK_FLAGS_MASK,
        protocol: args.2 as i32,
    }
}

pub open spec fn bind_event(args: SyscallArgs, addr: Option<SockAddr>) -> Syscall {
    Syscall::Bind { sockfd: args.0 as i32, addr: addr, addrlen: args.2 as u32 }
}

pub open spec fn listen_event(args: SyscallArgs) -> Syscall {
    Syscall::Listen { sockfd: args.0 as i32, backlog: args.1 as i32 }
}

pub open spec fn accept_event(
    args: SyscallArgs,
    addr: Option<SockAddr>,
    addrlen: Option<u32>,
) -> Syscall {
    Syscall::Accept { sockfd: args.0 as i32, addr: addr, addrlen: addrlen }
}

/// The openat event: flags and mode are the raw argument bit patterns.
pub open spec fn openat_event(args: SyscallArgs, pathname: Vec<u8>) -> Syscall {
    Syscall::Openat {
        dirfd: args.0 as i32,
        pathname: pathname,
        flags: args.2 as i32,
        mode: args.3 as u32,
    }
}

pub open spec fn execve_event(pathname: Vec<u8>, argv: Vec<u8>, envp: Vec<u8>) -> Syscall {
    Syscall::Execve { pathname: pathname, argv: argv, envp: envp }
}

pub open spec fn clone_event(args: SyscallArgs) -> Syscall {
    Syscall::Clone {
        flags: args.0 as u64,
        stack: args.1,
        parent_tid: args.2,
        child_tid: args.3,
        tls: args.4 as u64,
    }
}

pub open spec fn exit_group_event(args: SyscallArgs) -> Syscall {
    Syscall::ExitGroup { status: args.0 as i32 }
}

/// The catch-all: the raw number, the raw argument tuple, and the raw
/// return value, uninterpreted.
pub open spec fn unknown_event(id: u64, args: SyscallArgs, return_value: i64) -> Syscall {
    Syscall::Unknown { id: id, args: args, return_value: return_value }
}

pub fn complete_read(args: SyscallArgs, bytes: Vec<u8>) -> (r: Syscall)
    ensures
        r == read_event(args, bytes),
{
    let fd: i32 = #[verifier::truncate] (args.0 as i32);
    Syscall::Read { fd, read_bytes: bytes, requested_count: args.2 }
}

pub fn complete_write(args: SyscallArgs, buf: Vec<u8>) -> (r: Syscall)
    ensures
        r == write_event(args, buf),
{
    let fd: i32 = #[verifier::truncate] (args.0 as i32);
    Syscall::Write { fd, buf }
}

pub fn complete_close(args: SyscallArgs) -> (r: Syscall)
    ensures
        r == close_event(args),
{
    let fd: i32 = #[verifier::truncate] (args.0 as i32);
    Syscall::Close { fd }
}

pub fn complete_socket(args: SyscallArgs) -> (r: Syscall)
    ensures
        r == socket_event(args),
{
    let domain: i32 = #[verifier::truncate] (args.0 as i32);
    let type_word: i32 = #[verifier::truncate] (args.1 as i32);
    let protocol: i32 = #[verifier::truncate] (args.2 as i32);
    let (sock_type, sock_flags) = split_socket_type(type_word);
    Syscall::Socket { domain, sock_type, sock_flags, protocol }
}

pub fn complete_bind(args: SyscallArgs, addr: Option<SockAddr>) -> (r: Syscall)
    ensures
        r == bind_event(args, addr),
{
    let sockfd: i32 = #[verifier::truncate] (args.0 as i32);
    let addrlen: u32 = #[verifier::truncate] (args.2 as u32);
    Syscall::Bind { sockfd, addr, addrlen }
}

pub fn complete_listen(args: SyscallArgs) -> (r: Syscall)
    ensures
        r == listen_event(args),
{
    let sockfd: i32 = #[verifier::truncate] (args.0 as i32);
    let backlog: i32 = #[verifier::truncate] (args.1 as i32);
    Syscall::Listen { sockfd, backlog }
}

pub fn complete_accept(args: SyscallArgs, addr: Option<SockAddr>, addrlen: Option<u32>) -> (r:
    Syscall)
    ensures
        r == accept_event(args, addr, addrlen),
{
    let sockfd: i32 = #[verifier::truncate] (args.0 as i32);
    Syscall::Accept { sockfd, addr, addrlen }
}

pub fn complete_openat(args: SyscallArgs, pathname: Vec<u8>) -> (r: Syscall)
    ensures
        r == openat_event(args, pathname),
{
    let dirfd: i32 = #[verifier::truncate] (args.0 as i32);
    let flags: i32 = #[verifier::truncate] (args.2 as i32);
    let mode: u32 = #[verifier::truncate] (args.3 as u32);
    Syscall::Openat { dirfd, pathname, flags, mode }
}

pub fn complete_execve(pathname: Vec<u8>, argv: Vec<u8>, envp: Vec<u8>) -> (r: Syscall)
    ensures
        r == execve_event(pathname, argv, envp),
{
    Syscall::Execve { pathname, argv, envp }
}

pub fn complete_clone(args: SyscallArgs) -> (r: Syscall)
    ensures
        r == clone_event(args),
{
    Syscall::Clone {
        flags: args.0 as u64,
        stack: args.1,
        parent_tid: args.2,
        child_tid: args.3,
        tls: args.4 as u64,
    }
}

pub fn complete_exit_group(args: SyscallArgs) -> (r: Syscall)
    ensures
        r == exit_group_event(args),
{
    let status: i32 = #[verifier::truncate] (args.0 as i32);
    Syscall::ExitGroup { status }
}

pub fn complete_unknown(id: u64, args: SyscallArgs, return_value: i64) -> (r: Syscall)
    ensures
        r == unknown_event(id, args, return_value),
{
    Syscall::Unknown { id, args, return_value }
}

/// Law: a decoded read reports at most the requested count, and exactly
/// the OS return value, whenever the return value is non-negative and
/// within the request (the kernel's documented guarantee) and the buffer
/// was sized by the return value, as the decoder reads it back for a
/// non-null buffer.
pub proof fn lemma_read_count_bounded(args: SyscallArgs, ret: i64, bytes: Vec<u8>)
    requires
        0 <= ret,
        ret <= args.2,
        bytes@.len() == ret,
    ensures
        read_event(args, bytes) matches Syscall::Read { read_bytes, requested_count, .. }
            && read_bytes@.len() <= requested_count && read_bytes@.len() == ret,
{
}

/// Law: the file descriptor reported by a decoded read, write, or
/// openat event is exactly the first argument register captured at the
/// syscall's entry stop.
pub proof fn lemma_decoded_fd_is_first_arg(regs: Regs, bytes: Vec<u8>, buf: Vec<u8>, path: Vec<u8>)
    ensures
        read_event(args_of_regs(regs), bytes) matches Syscall::Read { fd, .. } && fd == regs.rdi
            as usize as i32,
        write_event(args_of_regs(regs), buf) matches Syscall::Write { fd, .. } && fd == regs.rdi
            as usize as i32,
        openat_event(args_of_regs(regs), path) matches Syscall::Openat { dirfd, .. } && dirfd
            == regs.rdi as usize as i32,
{
}

/// Read the raw socket address structure out of the tracee, the null
/// pointer meaning "no address".
fn read_sockaddr(tracee: &Tracee, base: usize) -> (r: Result<Option<SockAddr>, SyscallParseError>)
    ensures
        base == 0 ==> (r matches Ok(a) && a is None),
{
    if base == 0 {
        return Ok(None);
    }
    let bytes = match tracee.memcpy(base, SOCKADDR_SIZE) {
        Ok(b) => b,
        Err(e) => {
            return Err(SyscallParseError::PtraceError(e));
        },
    };
    match decode_sockaddr(bytes.as_slice()) {
        Some(sa) => Ok(Some(sa)),
        None => vstd::pervasive::unreached(),
    }
}

impl Syscall {
    /// Decode one full syscall: wait for the entry stop, capture the
    /// registers, dispatch on the number, and follow that call's
    /// entry/exit protocol.  An unknown number decodes to `Unknown`,
    /// never to a semantic variant.
    pub fn parse(tracee: &mut Tracee) -> (r: Result<Syscall, SyscallParseError>)
        ensures
            final(tracee).pid == old(tracee).pid,
            r matches Ok(Syscall::Unknown { id, .. }) ==> !is_known_syscall(id),
    {
        match tracee.wait_for_stop() {
            Ok(_) => {},
            Err(e) => {
                return Err(e);
            },
        }
        let regs = match tracee.getregs() {
            Ok(r) => r,
            Err(e) => {
                return Err(SyscallParseError::PtraceError(e));
            },
        };
        let args = SyscallArgs::new(&regs);
        match classify_syscall(regs.orig_rax) {
            SyscallDiscriminants::Read => {
                let ret = match tracee.parse_return(SyscallDiscriminants::Read) {
                    Ok(v) => v,
                    Err(e) => {
                        return Err(e);
                    },
                };
                let count: usize = #[verifier::truncate] (ret as usize);
                let bytes = match tracee.memcpy(args.1, count) {
                    Ok(b) => b,
                    Err(e) => {
                        return Err(SyscallParseError::PtraceError(e));
                    },
                };
                Ok(complete_read(args, bytes))
            },
            SyscallDiscriminants::Write => {
                let text = match tracee.memcpy(args.1, args.2) {
                    Ok(b) => b,
                    Err(e) => {
                        return Err(SyscallParseError::PtraceError(e));
                    },
                };
                match tracee.parse_return(SyscallDiscriminants::Write) {
                    Ok(_) => {},
                    Err(e) => {
                        return Err(e);
                    },
                }
                Ok(complete_write(args, text))
            },
            SyscallDiscriminants::Close => {
                match tracee.parse_return(SyscallDiscriminants::Close) {
                    Ok(_) => {},
                    Err(e) => {
                        return Err(e);
                    },
                }
                Ok(complete_close(args))
            },
            SyscallDiscriminants::Socket => {
                match tracee.parse_return(SyscallDiscriminants::Socket) {
                    Ok(_) => {},
                    Err(e) => {
                        return Err(e);
                    },
                }
                Ok(complete_socket(args))
            },
            SyscallDiscriminants::Accept => {
                let addrlen: Option<u32>;
                if args.1 == 0 || args.2 == 0 {
                    addrlen = None;
                } else {
                    let bytes = match tracee.memcpy(args.2, 4) {
                        Ok(b) => b,
                        Err(e) => {
                            return Err(SyscallParseError::PtraceError(e));
                        },
                    };
                    addrlen = match u32_from_le(bytes.as_slice()) {
                        Some(v) => Some(v),
                        None => vstd::pervasive::unreached(),
                    };
                }
                match tracee.parse_return(SyscallDiscriminants::Accept) {
                    Ok(_) => {},
                    Err(e) => {
                        return Err(e);
                    },
                }
                let addr = match read_sockaddr(tracee, args.1) {
                    Ok(a) => a,
                    Err(e) => {
                        return Err(e);
                    },
                };
                Ok(complete_accept(args, addr, addrlen))
            },
            SyscallDiscriminants::Bind => {
                let addr = match read_sockaddr(tracee, args.1) {
                    Ok(a) => a,
                    Err(e) => {
                        return Err(e);
                    },
                };
                match tracee.parse_return(SyscallDiscriminants::Bind) {
                    Ok(_) => {},
                    Err(e) => {
                        return Err(e);
                    },
                }
                Ok(complete_bind(args, addr))
            },
            SyscallDiscriminants::Listen => {
                match tracee.parse_return(SyscallDiscriminants::Listen) {
                    Ok(_) => {},
                    Err(e) => {
                        return Err(e);
                    },
                }
                Ok(complete_listen(args))
            },
            SyscallDiscriminants::Clone => {
                // The second stop after a clone is taken as the exit of
                // the same call, not verified against a clone
                // notification; the clone event carries the raw entry
                // arguments either way.
                let clone = complete_clone(args);
                match tracee.parse_return(SyscallDiscriminants::Clone) {
                    Ok(_) => {},
                    Err(e) => {
                        return Err(e);
                    },
                }
                Ok(clone)
            },
            SyscallDiscriminants::Execve => {
                let pathname = match tracee.strcpy(args.0) {
                    Ok(b) => b,
                    Err(e) => {
                        return Err(SyscallParseError::PtraceError(e));
                    },
                };
                let argv = match tracee.strcpy(args.1) {
                    Ok(b) => b,
                    Err(e) => {
                        return Err(SyscallParseError::PtraceError(e));
                    },
                };
                let envp = match tracee.strcpy(args.2) {
                    Ok(b) => b,
                    Err(e) => {
                        return Err(SyscallParseError::PtraceError(e));
                    },
                };
                match tracee.syscall() {
                    Ok(_) => {},
                    Err(e) => {
                        return Err(SyscallParseError::PtraceError(e));
                    },
                }
                match tracee.wait_for_stop() {
                    Ok(WaitEvents::Exec) => {
                        match tracee.parse_return(SyscallDiscriminants::Execve) {
                            Ok(_) => {},
                            Err(e) => {
                                return Err(e);
                            },
                        }
                        Ok(complete_execve(pathname, argv, envp))
                    },
                    Ok(_) => {
                        let return_value = match tracee.read_rax() {
                            Ok(v) => v,
                            Err(e) => {
                                return Err(e);
                            },
                        };
                        Err(
                            SyscallParseError::SyscallError {
                                syscall: SyscallDiscriminants::Execve,
                                error: crate::tracee::parse_syscall_error(return_value),
                            },
                        )
                    },
                    Err(e) => Err(e),
                }
            },
            // exit_group never returns: the event is decoded wholly at
            // entry, with no resume to an exit stop.
            SyscallDiscriminants::ExitGroup => Ok(complete_exit_group(args)),
            SyscallDiscriminants::Openat => {
                let pathname = match tracee.strcpy(args.1) {
                    Ok(b) => b,
                    Err(e) => {
                        return Err(SyscallParseError::PtraceError(e));
                    },
                };
                match tracee.parse_return(SyscallDiscriminants::Openat) {
                    Ok(_) => {},
                    Err(e) => {
                        return Err(e);
                    },
                }
                Ok(complete_openat(args, pathname))
            },
            SyscallDiscriminants::Unknown => {
                match tracee.syscall() {
                    Ok(_) => {},
                    Err(e) => {
                        return Err(SyscallParseError::PtraceError(e));
                    },
                }
                match tracee.wait_for_stop() {
                    Ok(_) => {},
                    Err(e) => {
                        return Err(e);
                    },
                }
                let return_value = match tracee.read_rax() {
                    Ok(v) => v,
                    Err(e) => {
                        return Err(e);
                    },
                };
                Ok(complete_unknown(regs.orig_rax, args, return_value))
            },
        }
    }
}

/// What an executable image's header declares as its entry point, as the
/// format defines it over the bytes alone.
pub uninterp spec fn elf_entry_of(image: Seq<u8>) -> Option<u64>;

/// Relies on elf::ElfBytes::minimal_parse: parses the executable header
/// (either class, either endianness) and yields its declared entry
/// point, a function of the image bytes alone; a malformed header yields
/// nothing.
#[verifier::external_body]
fn elf_entry(image: &Vec<u8>) -> (r: Option<u64>)
    ensures
        r == elf_entry_of(image@),
{
    match elf::ElfBytes::<elf::endian::AnyEndian>::minimal_parse(image.as_slice()) {
        Ok(f) => Some(f.ehdr.e_entry),
        Err(_) => None,
    }
}

/// The declared entry point of an executable image, if its header parses.
pub fn entry_point_of_image(image: &Vec<u8>) -> (r: Option<u64>)
    ensures
        r == elf_entry_of(image@),
{
    elf_entry(image)
}

/// The trace option bits handed to the kernel at setup: syscall-stop
/// granularity and exec events always, kill-on-exit when chosen.
pub fn options_word(kill_on_exit: bool) -> (r: i32)
    ensures
        kill_on_exit ==> r == PTRACE_O_TRACESYSGOOD | PTRACE_O_TRACEEXEC | PTRACE_O_EXITKILL,
        !kill_on_exit ==> r == PTRACE_O_TRACESYSGOOD | PTRACE_O_TRACEEXEC,
{
    if kill_on_exit {
        PTRACE_O_TRACESYSGOOD | PTRACE_O_TRACEEXEC | PTRACE_O_EXITKILL
    } else {
        PTRACE_O_TRACESYSGOOD | PTRACE_O_TRACEEXEC
    }
}

/// How a failed resume ends the stream: the "no such process" code ends
/// it cleanly as the end of the sequence, while any other code is
/// yielded as an error item and the stream may be polled again.
pub fn resume_failure_outcome(e: i32) -> (r: Option<Result<Syscall, SyscallParseError>>)
    ensures
        e == ESRCH ==> r is None,
        e != ESRCH ==> r == Some(
            Result::<Syscall, SyscallParseError>::Err(SyscallParseError::PtraceError(e)),
        ),
{
    if e == ESRCH {
        None
    } else {
        Some(Err(SyscallParseError::PtraceError(e)))
    }
}

/// The two knobs of a trace: skip the dynamic loader by running to the
/// program's entry point first, and kill the tracee when the tracer
/// exits.  Both default to on.
pub struct SyscallIterOpts {
    pub skip_to_main: bool,
    pub kill_on_exit: bool,
}

impl Default for SyscallIterOpts {
    fn default() -> (r: SyscallIterOpts)
        ensures
            r.skip_to_main,
            r.kill_on_exit,
    {
        SyscallIterOpts { skip_to_main: true, kill_on_exit: true }
    }
}

impl SyscallIterOpts {
    /// Set whether tracing skips ahead to the program's entry point.
    pub fn skip_to_main(self, value: bool) -> (r: Self)
        ensures
            r.skip_to_main == value,
            r.kill_on_exit == self.kill_on_exit,
    {
        SyscallIterOpts { skip_to_main: value, kill_on_exit: self.kill_on_exit }
    }

    /// Set whether the tracee dies with the tracer.
    pub fn kill_on_exit(self, value: bool) -> (r: Self)
        ensures
            r.kill_on_exit == value,
            r.skip_to_main == self.skip_to_main,
    {
        SyscallIterOpts { skip_to_main: self.skip_to_main, kill_on_exit: value }
    }
}

/// Why trace setup or stepping failed on the tracer's side.
#[derive(Debug, Clone, Copy, PartialEq, Eq, Structural)]
pub enum SyscallIterError {
    /// A trace request failed with the carried OS error code.
    PtraceError(i32),
    /// Reading the tracee's image or mapping table failed.
    IOError(i32),
    /// The executable's entry point could not be obtained or translated.
    EntryPointNotFound,
    /// The stop observed after running to the entry breakpoint was not
    /// the expected trap.
    UnexpectedStop,
}

/// The trace driver: set up once, then yield one decode result per
/// syscall until the tracee is gone.
pub struct SyscallIter {
    pub tracee: Tracee,
    /// Whether the entry breakpoint's trigger bit was confirmed after
    /// the run to the program entry; nothing when setup skipped that
    /// phase.  A sanity result for the caller to report, not control
    /// flow.
    pub entry_break_confirmed: Option<bool>,
}

impl SyscallIter {
    /// Configure tracing (always syscall-granularity stops and exec
    /// events; optionally kill-on-exit), and optionally run the tracee
    /// to its program entry point under a hardware breakpoint before the
    /// first syscall is decoded.
    pub fn new(tracee: Tracee, opts: SyscallIterOpts) -> (r: Result<SyscallIter, SyscallIterError>)
        ensures
            r matches Ok(it) ==> it.tracee.pid == tracee.pid,
            r matches Ok(it) ==> (it.entry_break_confirmed is Some <==> opts.skip_to_main),
    {
        let mut tracee = tracee;
        let mut entry_break_confirmed: Option<bool> = None;
        match tracee.setoptions(options_word(opts.kill_on_exit)) {
            Ok(_) => {},
            Err(e) => {
                return Err(SyscallIterError::PtraceError(e));
            },
        }
        if opts.skip_to_main {
            let image = match tracee.read_exe_prefix() {
                Ok(v) => v,
                Err(e) => {
                    return Err(SyscallIterError::IOError(e));
                },
            };
            let entry = match entry_point_of_image(&image) {
                Some(v) => v,
                None => {
                    return Err(SyscallIterError::EntryPointNotFound);
                },
            };
            let entry_addr: usize = #[verifier::truncate] (entry as usize);
            let main_address = match tracee.translate_address(entry_addr) {
                Ok(Some(a)) => a,
                Ok(None) => {
                    return Err(SyscallIterError::EntryPointNotFound);
                },
                Err(e) => {
                    return Err(SyscallIterError::IOError(e));
                },
            };
            match tracee.add_local_breakpoint(main_address) {
                Ok(_) => {},
                Err(e) => {
                    return Err(SyscallIterError::PtraceError(e));
                },
            }
            match tracee.cont() {
                Ok(_) => {},
                Err(e) => {
                    return Err(SyscallIterError::PtraceError(e));
                },
            }
            match tracee.wait_for_stop() {
                Ok(WaitEvents::Stopped(sig)) => {
                    if sig == SIGTRAP {
                        match tracee.check_break() {
                            Ok(hit) => {
                                entry_break_confirmed = Some(hit);
                            },
                            Err(e) => {
                                return Err(SyscallIterError::PtraceError(e));
                            },
                        }
                    } else {
                        return Err(SyscallIterError::UnexpectedStop);
                    }
                },
                _ => {
                    return Err(SyscallIterError::UnexpectedStop);
                },
            }
        }
        Ok(SyscallIter { tracee, entry_break_confirmed })
    }

    /// Yield the next decode result, or nothing once the tracee is gone.
    /// The sequence is not restartable: each step consumes one full
    /// entry/exit pair of stops.
    pub fn next(&mut self) -> (r: Option<Result<Syscall, SyscallParseError>>)
        ensures
            final(self).tracee.pid == old(self).tracee.pid,
            r matches Some(Ok(Syscall::Unknown { id, .. })) ==> !is_known_syscall(id),
    {
        match self.tracee.syscall() {
            Err(e) => resume_failure_outcome(e),
            Ok(_) => Some(Syscall::parse(&mut self.tracee)),
        }
    }
}

} // verus!
