# batch_os

The logic of a small RISC-V batch-processing kernel and of its user library,
verified with Verus.

- `src/` is the verified library: the table of applications and the order in
  which they run (`batch`), the dispatch, validation and counting of system
  calls (`syscall`), the trap dispatcher (`trap`), the user library's encoding
  of system calls (`user`), the `.bss` clearing length (`boot`), the cell for
  kernel-wide state (`sync`) and the constants (`config`).
- `app/` is the kernel around it: the entry point, the console and logger,
  the globals, reading the trap registers and the timer, copying images and
  switching to user mode, and the `ecall`s of the user library.
- `tests/` runs the library on concrete values.
