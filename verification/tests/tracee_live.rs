use boubo_trace::syscall::{
    SyscallDiscriminants, SyscallIter, SyscallIterError, SyscallIterOpts, SyscallParseError,
};
use boubo_trace::tracee::{
    breakpoint_hit, classify_wait, RawWaitStatus, SignalStorage, Tracee, WaitEvents, WaitOutcome,
    SIGCHLD, SIGTRAP,
};

#[test]
fn wait_classification_is_exact() {
    assert_eq!(
        classify_wait(RawWaitStatus::PtraceSyscall),
        WaitOutcome::Event(WaitEvents::Syscall)
    );
    assert_eq!(
        classify_wait(RawWaitStatus::PtraceEvent {
            signal: SIGTRAP,
            event: 4
        }),
        WaitOutcome::Event(WaitEvents::Exec)
    );
    assert_eq!(
        classify_wait(RawWaitStatus::PtraceEvent {
            signal: SIGTRAP,
            event: 1
        }),
        WaitOutcome::Event(WaitEvents::Fork)
    );
    assert_eq!(
        classify_wait(RawWaitStatus::PtraceEvent {
            signal: SIGTRAP,
            event: 3
        }),
        WaitOutcome::Event(WaitEvents::Clone)
    );
    assert_eq!(
        classify_wait(RawWaitStatus::Stopped { signal: 15 }),
        WaitOutcome::Event(WaitEvents::Stopped(15))
    );
    assert_eq!(
        classify_wait(RawWaitStatus::Stopped { signal: SIGCHLD }),
        WaitOutcome::Event(WaitEvents::Stopped(SIGCHLD))
    );
    assert_eq!(
        classify_wait(RawWaitStatus::Exited { code: 3 }),
        WaitOutcome::Fail(SyscallParseError::ProcessExit(3))
    );
    assert_eq!(
        classify_wait(RawWaitStatus::Signaled {
            signal: 9,
            core_dumped: true
        }),
        WaitOutcome::Fail(SyscallParseError::Terminated {
            signal: 9,
            core_dumped: true
        })
    );
    // A trap stop with an event code outside the taxonomy is reported.
    let odd = RawWaitStatus::PtraceEvent {
        signal: SIGTRAP,
        event: 6,
    };
    assert_eq!(
        classify_wait(odd),
        WaitOutcome::Fail(SyscallParseError::UnexpectedWaitStatus(odd))
    );
    assert_eq!(
        classify_wait(RawWaitStatus::StillAlive),
        WaitOutcome::Fail(SyscallParseError::UnexpectedWaitStatus(
            RawWaitStatus::StillAlive
        ))
    );
    assert_eq!(
        classify_wait(RawWaitStatus::Continued),
        WaitOutcome::Fail(SyscallParseError::UnexpectedWaitStatus(
            RawWaitStatus::Continued
        ))
    );
}

#[test]
fn trap_signal_is_never_buffered() {
    let mut storage = SignalStorage::default();
    assert_eq!(storage.signal, None);
    storage.store(SIGTRAP);
    assert_eq!(storage.signal, None);
    storage.store(15);
    assert_eq!(storage.signal, Some(15));
    assert_eq!(storage.get(), Some(15));
    assert_eq!(storage.signal, None);
    assert_eq!(storage.get(), None);
}

#[test]
fn null_address_reads_give_the_sentinel_byte() {
    let tracee = Tracee::new(1);
    assert_eq!(tracee.memcpy(0, 5), Ok(vec![0u8]));
    assert_eq!(tracee.strcpy(0), Ok(vec![0u8]));
}

#[test]
fn pid_spells_in_decimal() {
    assert_eq!(Tracee::new(12345).get_pid_string(), "12345");
    assert_eq!(Tracee::new(0).get_pid_string(), "0");
    assert_eq!(Tracee::new(-7).get_pid_string(), "-7");
    assert_eq!(Tracee::new(i32::MAX).get_pid_string(), "2147483647");
    assert_eq!(Tracee::new(i32::MIN).get_pid_string(), "-2147483648");
}

#[test]
fn own_mapping_table_is_readable_and_parses() {
    // Translation against this very process exercises the real
    // mapping-table read; the first page of the file is mapped from
    // offset 0 somewhere, so offset 0 translates.
    let pid = nix::unistd::getpid().as_raw();
    let tracee = Tracee::new(pid);
    let r = tracee.translate_address(0);
    assert!(r.is_ok());
}

#[test]
fn waiting_on_a_stranger_fails_with_a_wait_error() {
    // Pid 1 is not our child: the wait must report the OS error, not
    // invent an event.
    let mut tracee = Tracee::new(1);
    match tracee.wait_for_stop() {
        Err(SyscallParseError::WaitPidError(e)) => assert!(e > 0),
        other => panic!("expected a wait error, got {:?}", other),
    }
}

#[test]
fn breakpoint_trigger_bit_is_bit_zero() {
    assert!(breakpoint_hit(1));
    assert!(breakpoint_hit(3));
    assert!(!breakpoint_hit(0));
    assert!(!breakpoint_hit(2));
    assert!(breakpoint_hit(-1));
}

#[test]
fn trace_setup_on_a_stranger_fails_with_a_ptrace_error() {
    let opts = SyscallIterOpts::default().skip_to_main(false);
    match SyscallIter::new(Tracee::new(1), opts) {
        Err(SyscallIterError::PtraceError(e)) => assert!(e > 0),
        Err(other) => panic!("expected a ptrace error, got {:?}", other),
        Ok(_) => panic!("setup on a stranger must not succeed"),
    }
}

#[test]
fn stepping_a_stranger_fails_with_a_ptrace_error() {
    let mut tracee = Tracee::new(1);
    match tracee.parse_return(SyscallDiscriminants::Close) {
        Err(SyscallParseError::PtraceError(e)) => assert!(e > 0),
        other => panic!("expected a ptrace error, got {:?}", other),
    }
}
