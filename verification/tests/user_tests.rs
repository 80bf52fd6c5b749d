use batch_os::batch::{run_next_app, AppManager, UserStack};
use batch_os::boot::{bss_is_aligned, clear_bss_len, user_clear_bss_len};
use batch_os::syscall::{is_supported_syscall, syscall, SyscallEffect, SyscallMonitor, WriteOutcome};
use batch_os::user::{exit, get_taskinfo, sys_exit, sys_get_taskinfo, sys_write, STDIN, STDOUT};

#[test]
fn write_request_layout() {
    let r = batch_os::user::write(STDOUT, 0x8040_1000, 14);
    assert_eq!(r.id, 64);
    assert_eq!(r.args, [1, 0x8040_1000, 14]);
    let r = sys_write(STDIN, 5, 6);
    assert_eq!(r.id, 64);
    assert_eq!(r.args, [0, 5, 6]);
}

#[test]
fn exit_request_sign_extends_the_code() {
    let r = exit(3);
    assert_eq!(r.id, 93);
    assert_eq!(r.args, [3, 0, 0]);
    let r = sys_exit(-1);
    assert_eq!(r.args, [usize::MAX, 0, 0]);
}

#[test]
fn taskinfo_request_number() {
    let r = get_taskinfo();
    assert_eq!(r.id, 114514);
    assert_eq!(r.args, [0, 0, 0]);
    assert_eq!(sys_get_taskinfo().id, 114514);
}

#[test]
fn user_requests_reach_the_kernel() {
    let mut m = AppManager::new(1, &[0x8020_0000, 0x8020_0100]);
    run_next_app(&mut m, 0);
    let us = UserStack { data_addr: 0x1000 };
    let mut monitor = SyscallMonitor::new();
    let r = batch_os::user::write(STDOUT, 0x8040_0008, 4);
    assert_eq!(
        syscall(&mut monitor, &m, &us, r.id, r.args, b"text"),
        SyscallEffect::Write(WriteOutcome::Print { buf: 0x8040_0008, len: 4 })
    );
    for code in [0, 1, -1, i32::MIN, i32::MAX] {
        let r = exit(code);
        assert_eq!(syscall(&mut monitor, &m, &us, r.id, r.args, &[]), SyscallEffect::Exit { xstate: code });
    }
    // The user library's task-info number is not the one the kernel serves.
    let r = get_taskinfo();
    assert!(!is_supported_syscall(r.id));
}

#[test]
fn kernel_bss_clear_length() {
    assert_eq!(clear_bss_len(0x8020_0000, 0x8020_0040), 8);
    assert_eq!(clear_bss_len(0x100, 0x100), 0);
    assert!(bss_is_aligned(0x100, 0x140));
    assert!(!bss_is_aligned(0x100, 0x104));
}

#[test]
fn user_bss_clear_length() {
    assert_eq!(user_clear_bss_len(0x100, 0x140), 0x40);
}
