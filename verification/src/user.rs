//! The user library's side of system calls: which number and which argument
//! registers each call is made with.
//!
//! Each function returns the request that the application traps into the
//! kernel with; making the `ecall` itself is left to the caller.

use vstd::prelude::*;
use crate::batch::{AppManager, UserStack};
use crate::syscall::{spec_syscall, SyscallEffect};

verus! {

/// File descriptor of the standard input.
pub const STDIN: usize = 0;

/// File descriptor of the standard output.
pub const STDOUT: usize = 1;

/// Number with which the user library makes a `write`.
pub const SYSCALL_WRITE: usize = 64;

/// Number with which the user library makes an `exit`.
pub const SYSCALL_EXIT: usize = 93;

/// Number with which the user library asks for task info.
pub const SYSCALL_GET_TASKINFO: usize = 114514;

/// A system call as an application makes it: the number goes in `a7`, the
/// arguments in `a0` to `a2`.
#[derive(Debug, Clone, Copy)]
pub struct SyscallRequest {
    pub id: usize,
    pub args: [usize; 3],
}

/// The request with number `id` and arguments `args`.
pub open spec fn spec_request(id: usize, args: [usize; 3]) -> SyscallRequest {
    SyscallRequest { id, args }
}

/// The request for `write(fd, buf, len)`, where `buf` is the address of the
/// buffer's first byte.
pub open spec fn spec_sys_write(fd: usize, buf: usize, len: usize) -> SyscallRequest {
    SyscallRequest { id: SYSCALL_WRITE, args: [fd, buf, len] }
}

/// The request for `exit(exit_code)`: the code, sign-extended, in `a0`.
pub open spec fn spec_sys_exit(exit_code: i32) -> SyscallRequest {
    SyscallRequest { id: SYSCALL_EXIT, args: [exit_code as usize, 0, 0] }
}

/// The request for task info.
pub open spec fn spec_sys_get_taskinfo() -> SyscallRequest {
    SyscallRequest { id: SYSCALL_GET_TASKINFO, args: [0, 0, 0] }
}

/// The system call with number `id` and arguments `args`.
fn syscall(id: usize, args: [usize; 3]) -> (request: SyscallRequest)
    ensures
        request == spec_request(id, args),
{
    SyscallRequest { id, args }
}

/// The `write` of the `len` bytes at address `buf` to `fd`.
pub fn sys_write(fd: usize, buf: usize, len: usize) -> (request: SyscallRequest)
    ensures
        request == spec_sys_write(fd, buf, len),
{
    syscall(SYSCALL_WRITE, [fd, buf, len])
}

/// The `exit` with `exit_code`.
pub fn sys_exit(exit_code: i32) -> (request: SyscallRequest)
    ensures
        request == spec_sys_exit(exit_code),
{
    syscall(SYSCALL_EXIT, [exit_code as usize, 0, 0])
}

/// The request for task info.
pub fn sys_get_taskinfo() -> (request: SyscallRequest)
    ensures
        request == spec_sys_get_taskinfo(),
{
    syscall(SYSCALL_GET_TASKINFO, [0, 0, 0])
}

/// Writes the `len` bytes at address `buf` to `fd`.
pub fn write(fd: usize, buf: usize, len: usize) -> (request: SyscallRequest)
    ensures
        request == spec_sys_write(fd, buf, len),
{
    sys_write(fd, buf, len)
}

/// Ends the application with `exit_code`.
pub fn exit(exit_code: i32) -> (request: SyscallRequest)
    ensures
        request == spec_sys_exit(exit_code),
{
    sys_exit(exit_code)
}

/// Asks for task info.
pub fn get_taskinfo() -> (request: SyscallRequest)
    ensures
        request == spec_sys_get_taskinfo(),
{
    sys_get_taskinfo()
}

/// A `write` made through the user library reaches the kernel as a `write`
/// of the same descriptor, buffer address and length.
pub proof fn lemma_write_request_reaches_kernel(
    manager: AppManager,
    user_stack: UserStack,
    fd: usize,
    buf: usize,
    len: usize,
)
    ensures
        spec_syscall(manager, user_stack, spec_sys_write(fd, buf, len).id, spec_sys_write(fd, buf, len).args)
            == SyscallEffect::Write(crate::syscall::spec_sys_write(manager, user_stack, fd, buf, len)),
{
}

/// An `exit` made through the user library reaches the kernel as an exit
/// with the same code: the code survives being widened into a register.
pub proof fn lemma_exit_request_reaches_kernel(manager: AppManager, user_stack: UserStack, exit_code: i32)
    ensures
        spec_syscall(manager, user_stack, spec_sys_exit(exit_code).id, spec_sys_exit(exit_code).args)
            == (SyscallEffect::Exit { xstate: exit_code }),
{
    assert((exit_code as usize) as i32 == exit_code) by (bit_vector);
}

/// The user library puts the call's number in `a7` and its arguments in
/// `a0` to `a2`: a `write` is number 64 with the descriptor, the buffer's
/// address and its length; an exit is number 93 with the code, widened, and
/// zeros; "get task info" is number 114514 with zeros.
pub proof fn lemma_request_layout(fd: usize, buf: usize, len: usize, exit_code: i32)
    ensures
        spec_sys_write(fd, buf, len).id == 64,
        spec_sys_write(fd, buf, len).args@ == seq![fd, buf, len],
        spec_sys_exit(exit_code).id == 93,
        spec_sys_exit(exit_code).args@ == seq![exit_code as usize, 0usize, 0usize],
        spec_sys_exit(exit_code).args@[0] as i32 == exit_code,
        spec_sys_get_taskinfo().id == 114514,
        spec_sys_get_taskinfo().args@ == seq![0usize, 0usize, 0usize],
{
    assert(spec_sys_write(fd, buf, len).args@ =~= seq![fd, buf, len]);
    assert(spec_sys_exit(exit_code).args@ =~= seq![exit_code as usize, 0usize, 0usize]);
    assert(spec_sys_get_taskinfo().args@ =~= seq![0usize, 0usize, 0usize]);
    assert((exit_code as usize) as i32 == exit_code) by (bit_vector);
}

} // verus!
