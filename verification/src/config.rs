//! Constants of the kernel's memory layout and of the system-call numbering.

use vstd::prelude::*;

verus! {

/// Size in bytes of the stack that user applications run on.
pub const USER_STACK_SIZE: usize = 4096 * 2;

/// Size in bytes of the kernel stack that trap contexts are pushed on.
pub const KERNEL_STACK_SIZE: usize = 4096 * 2;

/// Greatest number of applications that the kernel can hold.
pub const MAX_APP_NUM: usize = 16;

/// Address at which every application image is loaded and started.
pub const APP_BASE_ADDRESS: usize = 0x80400000;

/// Size in bytes of the region that is cleared before an image is loaded.
pub const APP_SIZE_LIMIT: usize = 0x20000;

/// Frequency of the machine timer, in ticks per second.
pub const QEMU_CLOCK_FREQ: usize = 10_000_000;

/// System-call number of `write`.
pub const SYSCALL_WRITE: usize = 64;

/// System-call number of `exit`.
pub const SYSCALL_EXIT: usize = 93;

/// System-call number under which the kernel serves "get task info".
pub const SYSCALL_GET_TASKINFO: usize = 1024;

/// Greatest system-call number that the kernel keeps a count for.
pub const MAX_SYSCALL_ID: usize = 1024;

/// File descriptor of the standard output.
pub const FD_STDOUT: usize = 1;

} // verus!
