use boubo_trace::syscall::new_types::{decode_sockaddr, split_socket_type, u32_from_le};
use boubo_trace::syscall::{
    classify_syscall, complete_accept, complete_bind, complete_clone, complete_close,
    complete_exit_group, complete_listen, complete_openat, complete_read, complete_socket,
    complete_unknown, complete_write, entry_point_of_image, options_word,
    resume_failure_outcome, Syscall, SyscallArgs, SyscallDiscriminants, SyscallIterOpts,
    SyscallParseError,
};
use boubo_trace::tracee::{check_return, parse_syscall_error, Regs};

fn regs_with(orig_rax: u64, rdi: u64, rsi: u64, rdx: u64, r10: u64) -> Regs {
    Regs {
        orig_rax,
        rax: 0,
        rdi,
        rsi,
        rdx,
        r10,
        r8: 0,
        r9: 0,
    }
}

#[test]
fn args_come_from_the_argument_registers() {
    let regs = Regs {
        orig_rax: 1,
        rax: 0,
        rdi: 10,
        rsi: 11,
        rdx: 12,
        r10: 13,
        r8: 14,
        r9: 15,
    };
    let args = SyscallArgs::new(&regs);
    assert_eq!(args, SyscallArgs(10, 11, 12, 13, 14, 15));
}

#[test]
fn classification_is_exact() {
    assert_eq!(classify_syscall(0), SyscallDiscriminants::Read);
    assert_eq!(classify_syscall(1), SyscallDiscriminants::Write);
    assert_eq!(classify_syscall(3), SyscallDiscriminants::Close);
    assert_eq!(classify_syscall(41), SyscallDiscriminants::Socket);
    assert_eq!(classify_syscall(43), SyscallDiscriminants::Accept);
    assert_eq!(classify_syscall(49), SyscallDiscriminants::Bind);
    assert_eq!(classify_syscall(50), SyscallDiscriminants::Listen);
    assert_eq!(classify_syscall(56), SyscallDiscriminants::Clone);
    assert_eq!(classify_syscall(59), SyscallDiscriminants::Execve);
    assert_eq!(classify_syscall(231), SyscallDiscriminants::ExitGroup);
    assert_eq!(classify_syscall(257), SyscallDiscriminants::Openat);
    assert_eq!(classify_syscall(2), SyscallDiscriminants::Unknown);
    assert_eq!(classify_syscall(9999), SyscallDiscriminants::Unknown);
}

#[test]
fn unknown_preserves_the_raw_tuple() {
    let args = SyscallArgs(1, 2, 3, 4, 5, 6);
    let ev = complete_unknown(9999, args, -38);
    assert_eq!(
        ev,
        Syscall::Unknown {
            id: 9999,
            args: SyscallArgs(1, 2, 3, 4, 5, 6),
            return_value: -38
        }
    );
}

#[test]
fn negative_return_is_a_syscall_failure() {
    let r = check_return(SyscallDiscriminants::Close, -2);
    assert_eq!(
        r,
        Err(SyscallParseError::SyscallError {
            syscall: SyscallDiscriminants::Close,
            error: 2
        })
    );
    assert_eq!(check_return(SyscallDiscriminants::Read, 5), Ok(5));
    assert_eq!(check_return(SyscallDiscriminants::Write, 0), Ok(0));
}

#[test]
fn errno_is_the_magnitude_of_the_return() {
    assert_eq!(parse_syscall_error(-9), 9);
    assert_eq!(parse_syscall_error(-1), 1);
    assert_eq!(parse_syscall_error(-4095), 4095);
}

#[test]
fn read_event_reports_fd_and_counts() {
    let args = SyscallArgs(3, 0x7000, 10, 0, 0, 0);
    let bytes = vec![97u8, 98, 99, 100, 101];
    let ev = complete_read(args, bytes.clone());
    match ev {
        Syscall::Read {
            fd,
            read_bytes,
            requested_count,
        } => {
            assert_eq!(fd, 3);
            assert_eq!(read_bytes, bytes);
            assert_eq!(requested_count, 10);
            assert!(read_bytes.len() <= requested_count);
        }
        _ => panic!("not a read event"),
    }
}

#[test]
fn write_event_reports_fd_and_buffer() {
    let args = SyscallArgs(1, 0x7000, 5, 0, 0, 0);
    let ev = complete_write(args, b"hello".to_vec());
    match ev {
        Syscall::Write { fd, buf } => {
            assert_eq!(fd, 1);
            assert_eq!(buf, b"hello".to_vec());
        }
        _ => panic!("not a write event"),
    }
}

#[test]
fn openat_event_keeps_raw_flags_and_mode() {
    let args = SyscallArgs(
        0xffffff9c, // AT_FDCWD as an unsigned register value
        0x7000,
        0o101102,
        0o644,
        0,
        0,
    );
    let ev = complete_openat(args, b"/tmp/x\0".to_vec());
    match ev {
        Syscall::Openat {
            dirfd,
            pathname,
            flags,
            mode,
        } => {
            assert_eq!(dirfd, 0xffffff9cu32 as i32);
            assert_eq!(pathname, b"/tmp/x\0".to_vec());
            assert_eq!(flags, 0o101102);
            assert_eq!(mode, 0o644);
        }
        _ => panic!("not an openat event"),
    }
}

#[test]
fn socket_event_splits_type_and_flags() {
    let args = SyscallArgs(2, 1 | 0x800, 0, 0, 0, 0);
    let ev = complete_socket(args);
    match ev {
        Syscall::Socket {
            domain,
            sock_type,
            sock_flags,
            protocol,
        } => {
            assert_eq!(domain, 2);
            assert_eq!(sock_type, 1);
            assert_eq!(sock_flags, 0x800);
            assert_eq!(protocol, 0);
            assert_eq!(sock_type | sock_flags, 1 | 0x800);
        }
        _ => panic!("not a socket event"),
    }
}

#[test]
fn socket_type_split_recombines_exactly() {
    let word = 2 | 0x800 | 0x80000;
    let (ty, fl) = split_socket_type(word);
    assert_eq!(ty, 2);
    assert_eq!(fl, 0x800 | 0x80000);
    assert_eq!(ty | fl, word);
    assert_eq!(ty & fl, 0);
    let (ty2, fl2) = split_socket_type(5);
    assert_eq!((ty2, fl2), (5, 0));
}

#[test]
fn sockaddr_decodes_family_and_payload() {
    let mut bytes = vec![2u8, 0];
    bytes.extend_from_slice(&[1, 2, 3, 4, 5, 6, 7, 8, 9, 10, 11, 12, 13, 14]);
    let sa = decode_sockaddr(&bytes).expect("16 bytes must decode");
    assert_eq!(sa.family, 2);
    assert_eq!(sa.data, vec![1, 2, 3, 4, 5, 6, 7, 8, 9, 10, 11, 12, 13, 14]);
    assert!(decode_sockaddr(&bytes[..15]).is_none());
    assert!(decode_sockaddr(&[]).is_none());
}

#[test]
fn sockaddr_family_is_little_endian() {
    let mut bytes = vec![0x34u8, 0x12];
    bytes.extend_from_slice(&[0u8; 14]);
    let sa = decode_sockaddr(&bytes).unwrap();
    assert_eq!(sa.family, 0x1234);
}

#[test]
fn length_word_is_little_endian() {
    assert_eq!(u32_from_le(&[0x78, 0x56, 0x34, 0x12]), Some(0x12345678));
    assert_eq!(u32_from_le(&[16, 0, 0, 0]), Some(16));
    assert_eq!(u32_from_le(&[1, 2, 3]), None);
}

#[test]
fn bind_and_accept_and_listen_events() {
    let args = SyscallArgs(4, 0, 16, 0, 0, 0);
    let bind = complete_bind(args, None);
    assert_eq!(
        bind,
        Syscall::Bind {
            sockfd: 4,
            addr: None,
            addrlen: 16
        }
    );
    let accept = complete_accept(args, None, Some(16));
    assert_eq!(
        accept,
        Syscall::Accept {
            sockfd: 4,
            addr: None,
            addrlen: Some(16)
        }
    );
    let listen = complete_listen(SyscallArgs(4, 128, 0, 0, 0, 0));
    assert_eq!(
        listen,
        Syscall::Listen {
            sockfd: 4,
            backlog: 128
        }
    );
}

#[test]
fn clone_event_carries_the_raw_registers() {
    let args = SyscallArgs(0x11, 0x22, 0x33, 0x44, 0x55, 0);
    let ev = complete_clone(args);
    assert_eq!(
        ev,
        Syscall::Clone {
            flags: 0x11,
            stack: 0x22,
            parent_tid: 0x33,
            child_tid: 0x44,
            tls: 0x55
        }
    );
}

#[test]
fn three_step_scenario_in_order() {
    // A program that opens a file, writes "hello", and exits with 0,
    // enacted over the per-syscall decoders in entry order.
    let open_args = SyscallArgs::new(&regs_with(257, 0xffffff9c, 0x7000, 0, 0o644));
    let write_args = SyscallArgs::new(&regs_with(1, 1, 0x8000, 5, 0));
    let exit_args = SyscallArgs::new(&regs_with(231, 0, 0, 0, 0));

    let events = vec![
        complete_openat(open_args, b"out.txt\0".to_vec()),
        complete_write(write_args, b"hello".to_vec()),
        complete_exit_group(exit_args),
    ];

    assert!(matches!(events[0], Syscall::Openat { dirfd, .. } if dirfd == 0xffffff9cu32 as i32));
    match &events[1] {
        Syscall::Write { fd, buf } => {
            assert_eq!(*fd, 1);
            assert_eq!(buf, &b"hello".to_vec());
        }
        _ => panic!("second event must be the write"),
    }
    assert!(matches!(events[2], Syscall::ExitGroup { status: 0 }));
    assert!(!events.iter().any(|e| matches!(e, Syscall::Unknown { .. })));
}

#[test]
fn options_word_carries_the_chosen_bits() {
    assert_eq!(options_word(false), 0x1 | 0x10);
    assert_eq!(options_word(true), 0x1 | 0x10 | 0x100000);
}

#[test]
fn no_such_process_ends_the_stream() {
    assert_eq!(resume_failure_outcome(3), None);
    assert_eq!(
        resume_failure_outcome(5),
        Some(Err(SyscallParseError::PtraceError(5)))
    );
    assert_eq!(
        resume_failure_outcome(1),
        Some(Err(SyscallParseError::PtraceError(1)))
    );
}

#[test]
fn iter_opts_default_and_builders() {
    let opts = SyscallIterOpts::default();
    assert!(opts.skip_to_main);
    assert!(opts.kill_on_exit);
    let opts = SyscallIterOpts::default()
        .skip_to_main(false)
        .kill_on_exit(false);
    assert!(!opts.skip_to_main);
    assert!(!opts.kill_on_exit);
    let opts = opts.skip_to_main(true);
    assert!(opts.skip_to_main);
    assert!(!opts.kill_on_exit);
}

fn minimal_elf64(entry: u64) -> Vec<u8> {
    let mut v = vec![0u8; 64];
    v[0] = 0x7f;
    v[1] = 0x45; // 'E'
    v[2] = 0x4c; // 'L'
    v[3] = 0x46; // 'F'
    v[4] = 2; // 64-bit
    v[5] = 1; // little-endian
    v[6] = 1; // current version
    v[16] = 2; // executable
    v[18] = 0x3e; // x86-64
    v[20] = 1; // version
    let e = entry.to_le_bytes();
    v[24..32].copy_from_slice(&e);
    v[52] = 64; // header size
    v
}

#[test]
fn entry_point_read_from_image_header() {
    let image = minimal_elf64(0x1000);
    assert_eq!(entry_point_of_image(&image), Some(0x1000));
    let image = minimal_elf64(0x40_1065);
    assert_eq!(entry_point_of_image(&image), Some(0x40_1065));
}

#[test]
fn garbage_image_has_no_entry_point() {
    assert_eq!(entry_point_of_image(&vec![0u8; 64]), None);
    assert_eq!(entry_point_of_image(&vec![]), None);
    let mut almost = minimal_elf64(0x1000);
    almost[0] = 0; // break the magic
    assert_eq!(entry_point_of_image(&almost), None);
}
