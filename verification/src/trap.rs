//! Handling of traps taken from user mode.

use vstd::prelude::*;
use crate::batch::{AppManager, UserStack};
use crate::syscall::{
    can_serve_syscall, check_can_serve_syscall, count_call, spec_syscall,
    spec_syscall_write_buffer, syscall, syscall_is_supported, write_buffer, write_bytes_fit,
    buffer_in_app_or_stack, lemma_syscall_decoding, lemma_write_accepts_exactly_app_and_stack_buffers,
    SyscallEffect, SyscallMonitor,
};
use crate::config::{SYSCALL_EXIT, SYSCALL_GET_TASKINFO, SYSCALL_WRITE};

verus! {

/// The registers of an application saved when it traps into the kernel.
pub struct TrapContext {
    /// The general-purpose registers `x0` to `x31`.
    pub x: [usize; 32],
    /// The address of the instruction that trapped.
    pub sepc: usize,
}

/// The privilege mode that the processor was in before the trap.
#[derive(Debug, Clone, Copy, PartialEq, Eq, Structural)]
pub enum PrivilegeMode {
    User,
    Supervisor,
}

/// The cause of a trap, as far as the kernel tells causes apart.
#[derive(Debug, Clone, Copy, PartialEq, Eq, Structural)]
pub enum TrapCause {
    /// An `ecall` from user mode: a system call.
    UserEnvCall,
    /// A store access fault.
    StoreFault,
    /// A store page fault.
    StorePageFault,
    /// An illegal instruction.
    IllegalInstruction,
    /// Any other exception, or an interrupt: the kernel stops on it.
    Other,
}

/// What the kernel does after a trap.
#[derive(Debug, Clone, Copy, PartialEq, Eq, Structural)]
pub enum TrapEffect {
    /// A system call was made; the saved registers are updated and the
    /// effect says what else is to be done.
    Syscall(SyscallEffect),
    /// The application made a bad store: it is killed and the next one runs.
    StoreFault,
    /// The application ran an illegal instruction: it is killed and the next
    /// one runs.
    IllegalInstruction,
}

/// The system-call number and arguments that an application passes in
/// registers `a7` (`x17`) and `a0` to `a2` (`x10` to `x12`).
pub open spec fn spec_syscall_request(cx: TrapContext) -> (usize, [usize; 3]) {
    (cx.x@[17], [cx.x@[10], cx.x@[11], cx.x@[12]])
}

/// Whether the kernel handles a trap of this mode and cause: only traps
/// from user mode, and only system calls of a number it serves, bad stores
/// and illegal instructions; it stops on any other trap.
pub open spec fn trap_is_handled(cx: TrapContext, mode: PrivilegeMode, cause: TrapCause) -> bool {
    &&& mode is User
    &&& !(cause is Other)
    &&& cause is UserEnvCall ==> syscall_is_supported(spec_syscall_request(cx).0)
}

/// Whether a trap that the kernel handles can be handled without an
/// arithmetic overflow.
pub open spec fn can_handle_trap(
    cx: TrapContext,
    mode: PrivilegeMode,
    cause: TrapCause,
    monitor: SyscallMonitor,
    manager: AppManager,
    user_stack: UserStack,
) -> bool {
    &&& trap_is_handled(cx, mode, cause)
    &&& cause is UserEnvCall ==> {
        &&& cx.sepc + 4 <= usize::MAX
        &&& can_serve_syscall(
            monitor,
            manager,
            user_stack,
            spec_syscall_request(cx).0,
            spec_syscall_request(cx).1,
        )
    }
}

/// Tells whether `trap_is_handled` holds.
pub fn check_trap_is_handled(cx: &TrapContext, mode: PrivilegeMode, cause: TrapCause) -> (b: bool)
    ensures
        b == trap_is_handled(*cx, mode, cause),
{
    match (mode, cause) {
        (PrivilegeMode::User, TrapCause::UserEnvCall) => crate::syscall::is_supported_syscall(cx.x[17]),
        (PrivilegeMode::User, TrapCause::Other) => false,
        (PrivilegeMode::User, _) => true,
        (PrivilegeMode::Supervisor, _) => false,
    }
}

/// Tells whether `can_handle_trap` holds.
pub fn check_can_handle_trap(
    cx: &TrapContext,
    mode: PrivilegeMode,
    cause: TrapCause,
    monitor: &SyscallMonitor,
    manager: &AppManager,
    user_stack: &UserStack,
) -> (b: bool)
    ensures
        b == can_handle_trap(*cx, mode, cause, *monitor, *manager, *user_stack),
{
    if !check_trap_is_handled(cx, mode, cause) {
        return false;
    }
    match cause {
        TrapCause::UserEnvCall => {
            cx.sepc <= usize::MAX - 4 && check_can_serve_syscall(
                monitor,
                manager,
                user_stack,
                cx.x[17],
                [cx.x[10], cx.x[11], cx.x[12]],
            )
        },
        _ => true,
    }
}

/// The buffer whose bytes the kernel reads while it handles this trap: that
/// of a `write` to the standard output which passes the range check.
pub open spec fn spec_trap_write_buffer(
    cx: TrapContext,
    cause: TrapCause,
    manager: AppManager,
    user_stack: UserStack,
) -> Option<(usize, usize)> {
    if cause is UserEnvCall {
        let (id, args) = spec_syscall_request(cx);
        spec_syscall_write_buffer(manager, user_stack, id, args)
    } else {
        None
    }
}

/// The buffer whose bytes the kernel reads while it handles this trap; the
/// caller reads them and hands them to `trap_handler`.
pub fn trap_write_buffer(
    cx: &TrapContext,
    mode: PrivilegeMode,
    cause: TrapCause,
    monitor: &SyscallMonitor,
    manager: &AppManager,
    user_stack: &UserStack,
) -> (b: Option<(usize, usize)>)
    requires
        can_handle_trap(*cx, mode, cause, *monitor, *manager, *user_stack),
    ensures
        b == spec_trap_write_buffer(*cx, cause, *manager, *user_stack),
{
    match cause {
        TrapCause::UserEnvCall => {
            if cx.x[17] == SYSCALL_WRITE {
                write_buffer(manager, user_stack, cx.x[10], cx.x[11], cx.x[12])
            } else {
                None
            }
        },
        _ => None,
    }
}

/// Handles a trap taken from user mode with the registers saved in `cx`;
/// `bytes` are what the caller read from the buffer that
/// `spec_trap_write_buffer` names, if it names one.
///
/// A system call resumes after the `ecall` instruction, with the value that
/// the call returns in `a0`, and is counted; a bad store or an illegal
/// instruction ends the application.
pub fn trap_handler(
    cx: &mut TrapContext,
    mode: PrivilegeMode,
    cause: TrapCause,
    monitor: &mut SyscallMonitor,
    manager: &AppManager,
    user_stack: &UserStack,
    bytes: &[u8],
) -> (effect: TrapEffect)
    requires
        can_handle_trap(*old(cx), mode, cause, *old(monitor), *manager, *user_stack),
        write_bytes_fit(spec_trap_write_buffer(*old(cx), cause, *manager, *user_stack), bytes@),
    ensures
        match cause {
            TrapCause::UserEnvCall => {
                let (id, args) = spec_syscall_request(*old(cx));
                let call = spec_syscall(*manager, *user_stack, id, args);
                &&& effect == TrapEffect::Syscall(call)
                &&& final(cx).sepc == old(cx).sepc + 4
                &&& final(cx).x@ == match call.spec_return_value() {
                    Some(ret) => old(cx).x@.update(10, ret as usize),
                    None => old(cx).x@,
                }
                &&& final(monitor)@ == count_call(old(monitor)@, id)
            },
            _ => {
                &&& effect == (if cause is IllegalInstruction {
                    TrapEffect::IllegalInstruction
                } else {
                    TrapEffect::StoreFault
                })
                &&& *final(cx) == *old(cx)
                &&& final(monitor)@ == old(monitor)@
            },
        },
        cause is UserEnvCall ==> final(cx).sepc == old(cx).sepc + 4,
        cause is UserEnvCall && old(cx).x@[17] == SYSCALL_WRITE ==> final(cx).x@[10] == (if old(cx).x@[10]
            == 1 && buffer_in_app_or_stack(*manager, *user_stack, old(cx).x@[11], old(cx).x@[12]) {
            (old(cx).x@[12] as isize) as usize
        } else {
            (-1isize) as usize
        }),
        cause is UserEnvCall && old(cx).x@[17] == SYSCALL_GET_TASKINFO ==> final(cx).x@[10] == (
        manager.current_app as isize) as usize,
        cause is UserEnvCall && old(cx).x@[17] == SYSCALL_EXIT ==> final(cx).x@ == old(cx).x@,
        cause is UserEnvCall ==> final(monitor)@[old(cx).x@[17] as int] == old(monitor)@[old(cx).x@[17] as int] + 1,
{
    proof {
        lemma_syscall_decoding(*manager, *user_stack, old(cx).x@[17], [old(cx).x@[10], old(cx).x@[11], old(cx).x@[12]]);
        if old(cx).x@[17] == SYSCALL_WRITE && cause is UserEnvCall {
            lemma_write_accepts_exactly_app_and_stack_buffers(*manager, *user_stack, old(cx).x@[10], old(cx).x@[11], old(cx).x@[12]);
        }
    }
    match cause {
        TrapCause::UserEnvCall => {
            cx.sepc = cx.sepc + 4;
            let id = cx.x[17];
            let args = [cx.x[10], cx.x[11], cx.x[12]];
            let call = syscall(monitor, manager, user_stack, id, args, bytes);
            if let Some(ret) = call.return_value() {
                cx.x[10] = ret as usize;
            }
            TrapEffect::Syscall(call)
        },
        TrapCause::IllegalInstruction => TrapEffect::IllegalInstruction,
        _ => TrapEffect::StoreFault,
    }
}

/// The kernel takes a system call's number from `a7` (`x17`) and its
/// arguments from `a0`, `a1` and `a2` (`x10` to `x12`), and reads the
/// buffer of an `ecall` `write` and of nothing else.
pub proof fn lemma_trap_reads_the_request(cx: TrapContext, cause: TrapCause, manager: AppManager, user_stack: UserStack)
    ensures
        spec_syscall_request(cx).0 == cx.x@[17],
        spec_syscall_request(cx).1@ == seq![cx.x@[10], cx.x@[11], cx.x@[12]],
        cause is UserEnvCall && cx.x@[17] == SYSCALL_WRITE ==> spec_trap_write_buffer(cx, cause, manager, user_stack)
            == crate::syscall::spec_write_buffer(manager, user_stack, cx.x@[10], cx.x@[11], cx.x@[12]),
        !(cause is UserEnvCall && cx.x@[17] == SYSCALL_WRITE) ==> spec_trap_write_buffer(cx, cause, manager, user_stack) is None,
{
    assert(spec_syscall_request(cx).1@ =~= seq![cx.x@[10], cx.x@[11], cx.x@[12]]);
}

} // verus!
