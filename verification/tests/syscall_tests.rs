use batch_os::batch::{run_next_app, AppManager, UserStack};
use batch_os::syscall::{
    buffer_within, check_can_serve_syscall, check_range, get_syscall_count, is_supported_syscall,
    is_text, is_within, write_text, sys_get_taskinfo, sys_write, syscall, write_buffer, SyscallEffect,
    SyscallMonitor, WriteOutcome,
};

/// One application of 0x100 bytes, already started: its range is
/// [0x80400000, 0x80400100); the user stack is [0x1000, 0x3000).
fn running() -> (AppManager, UserStack) {
    let mut m = AppManager::new(1, &[0x8020_0000, 0x8020_0100]);
    run_next_app(&mut m, 0);
    (m, UserStack { data_addr: 0x1000 })
}

#[test]
fn monitor_counts_each_number_apart() {
    let mut monitor = SyscallMonitor::new();
    monitor.add(64);
    monitor.add(64);
    monitor.add(1024);
    assert_eq!(monitor.get(64), 2);
    assert_eq!(get_syscall_count(&monitor, 1024), 1);
    assert_eq!(get_syscall_count(&monitor, 93), 0);
    assert_eq!(get_syscall_count(&monitor, 0), 0);
}

#[test]
fn counts_are_the_number_of_calls() {
    let mut monitor = SyscallMonitor::new();
    let ids = [64, 93, 64, 1024, 64, 0, 1024];
    for id in ids {
        monitor.add(id);
    }
    for id in [0, 64, 93, 1024, 5] {
        assert_eq!(monitor.get(id), ids.iter().filter(|&&x| x == id).count());
    }
}

#[test]
fn is_within_is_half_open() {
    assert!(is_within(10, (10, 20)));
    assert!(is_within(19, (10, 20)));
    assert!(!is_within(20, (10, 20)));
    assert!(!is_within(9, (10, 20)));
    assert!(!is_within(10, (10, 10)));
}

#[test]
fn buffer_within_takes_the_whole_buffer() {
    assert!(buffer_within(10, 10, (10, 20)));
    assert!(buffer_within(20, 0, (10, 20)));
    assert!(!buffer_within(11, 10, (10, 20)));
    assert!(!buffer_within(9, 1, (10, 20)));
    assert!(!buffer_within(30, 0, (10, 20)));
    assert!(!buffer_within(usize::MAX, 2, (0, usize::MAX)));
}

#[test]
fn check_range_accepts_buffers_in_the_app_or_the_stack() {
    let (m, us) = running();
    assert!(check_range(&m, &us, 0x8040_0000, 0x10));
    assert!(check_range(&m, &us, 0x8040_00f0, 0x10));
    assert!(check_range(&m, &us, 0x8040_0000, 0x100));
    assert!(check_range(&m, &us, 0x1000, 0x2000));
    assert!(check_range(&m, &us, 0x2fff, 1));
}

#[test]
fn check_range_refuses_buffers_that_pass_the_end_or_straddle() {
    let (m, us) = running();
    assert!(!check_range(&m, &us, 0x8040_00f0, 0x11));
    assert!(!check_range(&m, &us, 0x1000, 0x2001));
    // Start in the stack, end in the application: refused.
    assert!(!check_range(&m, &us, 0x2ff0, 0x8040_0000 - 0x2ff0 + 4));
    assert!(!check_range(&m, &us, 0x100, 4));
    // An end past the top of the address space is refused.
    assert!(!check_range(&m, &us, 0x8040_0000, usize::MAX));
}

#[test]
fn write_buffer_names_what_is_read() {
    let (m, us) = running();
    assert_eq!(write_buffer(&m, &us, 1, 0x8040_0010, 5), Some((0x8040_0010, 5)));
    assert_eq!(write_buffer(&m, &us, 2, 0x8040_0010, 5), None);
    assert_eq!(write_buffer(&m, &us, 1, 0x10, 5), None);
}

#[test]
fn text_is_valid_utf8() {
    assert!(is_text(b"hello"));
    assert!(is_text("héllo, 世界".as_bytes()));
    assert!(is_text(b""));
    assert!(!is_text(&[0xff, 0x41]));
    assert!(!is_text(&[0xe4, 0xb8]));
    assert!(!is_text(&[0xed, 0xa0, 0x80]));
}

#[test]
fn write_text_is_the_same_bytes() {
    assert_eq!(write_text(b"hi there"), Some("hi there"));
    assert_eq!(write_text("世界".as_bytes()), Some("世界"));
    assert_eq!(write_text(&[0x68, 0xc0, 0x80]), None);
}

#[test]
fn sys_write_prints_only_checked_stdout_buffers() {
    let (m, us) = running();
    let ok = sys_write(&m, &us, 1, 0x8040_0010, 5, b"hello");
    assert_eq!(ok, WriteOutcome::Print { buf: 0x8040_0010, len: 5 });
    assert_eq!(ok.ret(), 5);
    let bad_fd = sys_write(&m, &us, 2, 0x8040_0010, 5, &[]);
    assert_eq!(bad_fd, WriteOutcome::UnsupportedFd);
    assert_eq!(bad_fd.ret(), -1);
    let out = sys_write(&m, &us, 1, 0x10, 5, &[]);
    assert_eq!(out, WriteOutcome::OutOfRange);
    assert_eq!(out.ret(), -1);
    // The range check comes before the descriptor check.
    assert_eq!(sys_write(&m, &us, 7, 0x10, 5, &[]), WriteOutcome::OutOfRange);
}

#[test]
fn sys_get_taskinfo_is_the_next_app() {
    let (m, _) = running();
    assert_eq!(sys_get_taskinfo(&m), 1);
}

#[test]
fn syscall_dispatches_and_counts_write() {
    let (m, us) = running();
    let mut monitor = SyscallMonitor::new();
    let e = syscall(&mut monitor, &m, &us, 64, [1, 0x8040_0000, 3], b"abc");
    assert_eq!(e, SyscallEffect::Write(WriteOutcome::Print { buf: 0x8040_0000, len: 3 }));
    assert_eq!(e.return_value(), Some(3));
    assert_eq!(monitor.get(64), 1);
    let e = syscall(&mut monitor, &m, &us, 64, [1, 0x10, 3], &[]);
    assert_eq!(e.return_value(), Some(-1));
    assert_eq!(monitor.get(64), 2);
}

#[test]
fn syscall_exit_is_counted() {
    let (m, us) = running();
    let mut monitor = SyscallMonitor::new();
    let e = syscall(&mut monitor, &m, &us, 93, [3, 0, 0], &[]);
    assert_eq!(e, SyscallEffect::Exit { xstate: 3 });
    assert_eq!(e.return_value(), None);
    assert_eq!(monitor.get(93), 1);
    let e = syscall(&mut monitor, &m, &us, 93, [(-1i32) as usize, 0, 0], &[]);
    assert_eq!(e, SyscallEffect::Exit { xstate: -1 });
    // Only the low 32 bits of the register are the code.
    let e = syscall(&mut monitor, &m, &us, 93, [0x1_0000_0005, 0, 0], &[]);
    assert_eq!(e, SyscallEffect::Exit { xstate: 5 });
    assert_eq!(monitor.get(93), 3);
}

#[test]
fn syscall_taskinfo_returns_the_next_app_and_counts() {
    let (m, us) = running();
    let mut monitor = SyscallMonitor::new();
    let e = syscall(&mut monitor, &m, &us, 1024, [0, 0, 0], &[]);
    assert_eq!(e, SyscallEffect::GetTaskInfo { current_app: 1 });
    assert_eq!(e.return_value(), Some(1));
    assert_eq!(monitor.get(1024), 1);
}

#[test]
fn only_three_numbers_are_served() {
    assert!(is_supported_syscall(64));
    assert!(is_supported_syscall(93));
    assert!(is_supported_syscall(1024));
    assert!(!is_supported_syscall(124));
    assert!(!is_supported_syscall(114514));
    let (m, us) = running();
    let monitor = SyscallMonitor::new();
    assert!(check_can_serve_syscall(&monitor, &m, &us, 64, [1, 0, 0]));
    assert!(!check_can_serve_syscall(&monitor, &m, &us, 124, [0, 0, 0]));
    let fresh = AppManager::new(1, &[0x8020_0000, 0x8020_0100]);
    // Before any application started there is no range to check against.
    assert!(!check_can_serve_syscall(&monitor, &fresh, &us, 64, [1, 0, 0]));
    assert!(check_can_serve_syscall(&monitor, &fresh, &us, 93, [1, 0, 0]));
}
