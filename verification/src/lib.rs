//! Tracing of a child process's system calls on Linux/x86-64.
//!
//! The tracee is controlled through the kernel's process-tracing facility:
//! the tracer stops it at every system-call boundary, reads its registers
//! and memory, and reconstructs one typed event per call.

pub mod maps;
pub mod syscall;
pub mod text;
pub mod tracee;
