//! The logic of a small RISC-V batch-processing kernel and of the user
//! library that its applications link against: the table of applications and
//! the order in which they are run, the bookkeeping of ticks and system-call
//! counts, the validation of user buffers, the trap dispatcher, and the
//! encoding of system calls on the user side.
//!
//! Everything that touches the machine (reading control registers, copying
//! images into memory, `ecall`s, printing) is left to the caller: the
//! functions here return what must be done and take back what was observed.

pub mod config;
pub mod batch;
pub mod sync;
pub mod syscall;
pub mod trap;
pub mod user;
pub mod boot;
