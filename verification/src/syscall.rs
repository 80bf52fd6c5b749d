//! The kernel's side of system calls: decoding a request, validating the
//! buffer of a `write`, and counting how often each number is called.

use vstd::prelude::*;
use vstd::utf8::valid_utf8;
use vstd::string::StringSliceAdditionalSpecFns;
use crate::batch::{get_user_stack_range, spec_user_stack_range, AppManager, UserStack};
use crate::config::{
    APP_BASE_ADDRESS, FD_STDOUT, MAX_SYSCALL_ID, SYSCALL_EXIT, SYSCALL_GET_TASKINFO, SYSCALL_WRITE,
    USER_STACK_SIZE,
};

verus! {

/// For each system-call number up to `MAX_SYSCALL_ID`, how many times it
/// was called.
pub struct SyscallMonitor {
    count: [usize; 1025],
}

impl View for SyscallMonitor {
    type V = Seq<usize>;

    /// Slot `id` holds the number of calls of `id`.
    closed spec fn view(&self) -> Seq<usize> {
        self.count@
    }
}

/// The counts after one more call of `id`: its count rises by one.
pub open spec fn count_call(counts: Seq<usize>, id: usize) -> Seq<usize> {
    counts.update(id as int, (counts[id as int] + 1) as usize)
}

/// The counts after the calls `ids`, made in order, starting from `counts`.
pub open spec fn count_calls(counts: Seq<usize>, ids: Seq<usize>) -> Seq<usize>
    decreases ids.len(),
{
    if ids.len() == 0 {
        counts
    } else {
        count_call(count_calls(counts, ids.drop_last()), ids.last())
    }
}

/// How many of `ids` equal `id`.
pub open spec fn occurrences(ids: Seq<usize>, id: usize) -> nat
    decreases ids.len(),
{
    if ids.len() == 0 {
        0
    } else {
        occurrences(ids.drop_last(), id) + (if ids.last() == id { 1nat } else { 0nat })
    }
}

impl SyscallMonitor {
    /// There is one slot per number from 0 to `MAX_SYSCALL_ID`.
    pub proof fn lemma_len(&self)
        ensures
            self@.len() == MAX_SYSCALL_ID + 1,
    {
    }

    /// A monitor with every count at zero.
    pub fn new() -> (monitor: Self)
        ensures
            monitor@.len() == MAX_SYSCALL_ID + 1,
            forall|i: int| 0 <= i <= MAX_SYSCALL_ID ==> monitor@[i] == 0,
    {
        SyscallMonitor { count: [0; 1025] }
    }

    /// Counts one more call of `id`; every other count stays.
    pub fn add(&mut self, id: usize)
        requires
            id <= MAX_SYSCALL_ID,
            old(self)@[id as int] < usize::MAX,
        ensures
            final(self)@ == count_call(old(self)@, id),
    {
        self.count[id] = self.count[id] + 1;
    }

    /// The number of calls of `id`.
    pub fn get(&self, id: usize) -> (n: usize)
        requires
            id <= MAX_SYSCALL_ID,
        ensures
            n == self@[id as int],
    {
        self.count[id]
    }
}

/// The number of calls of `id` that `monitor` has counted.
pub fn get_syscall_count(monitor: &SyscallMonitor, id: usize) -> (n: usize)
    requires
        id <= MAX_SYSCALL_ID,
    ensures
        n == monitor@[id as int],
{
    monitor.get(id)
}

/// Counting a call of `id` raises its count by one and leaves every other
/// count as it was.
pub proof fn lemma_add_counts_one_call(pre: Seq<usize>, id: usize, other: int)
    requires
        pre.len() == MAX_SYSCALL_ID + 1,
        id <= MAX_SYSCALL_ID,
        pre[id as int] < usize::MAX,
    ensures
        count_call(pre, id).len() == pre.len(),
        count_call(pre, id)[id as int] == pre[id as int] + 1,
        0 <= other < pre.len() && other != id ==> count_call(pre, id)[other] == pre[other],
{
}

/// Starting from counts that are all zero (as `SyscallMonitor::new` gives),
/// after the calls `ids` are counted in order (by `add`, or by `syscall`,
/// which counts every call it serves), the count of each number is the number
/// of calls made with it. The calls can be counted without overflow exactly
/// when no number is called more than `usize::MAX` times.
pub proof fn lemma_counts_are_occurrences(start: Seq<usize>, ids: Seq<usize>)
    requires
        start.len() == MAX_SYSCALL_ID + 1,
        forall|i: int| 0 <= i < start.len() ==> start[i] == 0,
        forall|j: int| 0 <= j < ids.len() ==> ids[j] <= MAX_SYSCALL_ID,
        forall|id: usize| #[trigger] occurrences(ids, id) <= usize::MAX,
    ensures
        count_calls(start, ids).len() == MAX_SYSCALL_ID + 1,
        forall|id: usize| id <= MAX_SYSCALL_ID ==> count_calls(start, ids)[id as int] == occurrences(ids, id),
    decreases ids.len(),
{
    if ids.len() > 0 {
        let prefix = ids.drop_last();
        assert forall|id: usize| #[trigger] occurrences(prefix, id) <= usize::MAX by {
            assert(occurrences(prefix, id) <= occurrences(ids, id));
        }
        lemma_counts_are_occurrences(start, prefix);
        let last = ids.last();
        assert(occurrences(ids, last) == occurrences(prefix, last) + 1);
        assert forall|id: usize| id <= MAX_SYSCALL_ID implies count_calls(start, ids)[id as int] == occurrences(
            ids,
            id,
        ) by {
            assert(count_calls(start, prefix)[id as int] == occurrences(prefix, id));
        }
    }
}

/// Whether `addr` lies in the half-open range `[range.0, range.1)`.
pub open spec fn spec_is_within(addr: usize, range: (usize, usize)) -> bool {
    range.0 <= addr && addr < range.1
}

/// Whether `addr` lies in the half-open range `[range.0, range.1)`.
pub fn is_within(addr: usize, range: (usize, usize)) -> (b: bool)
    ensures
        b == spec_is_within(addr, range),
        b == (range.0 <= addr && addr < range.1),
{
    addr >= range.0 && addr < range.1
}

/// Whether the whole buffer `[buf, buf + len)` lies in `[range.0, range.1)`;
/// a buffer whose end passes the top of the address space does not.
pub open spec fn spec_buffer_within(buf: usize, len: usize, range: (usize, usize)) -> bool {
    range.0 <= buf && buf + len <= range.1
}

/// Whether the whole buffer `[buf, buf + len)` lies in `[range.0, range.1)`.
pub fn buffer_within(buf: usize, len: usize, range: (usize, usize)) -> (b: bool)
    ensures
        b == spec_buffer_within(buf, len, range),
        b == (range.0 <= buf && buf + len <= range.1),
{
    range.0 <= buf && buf <= range.1 && len <= range.1 - buf
}

/// Whether the buffer `[buf, buf + len)` passes the kernel's check: it lies
/// wholly within the running application's range or wholly within the user
/// stack's range.
pub open spec fn spec_check_range(manager: AppManager, user_stack: UserStack, buf: usize, len: usize) -> bool {
    ||| spec_buffer_within(buf, len, manager.spec_current_app_range())
    ||| spec_buffer_within(buf, len, spec_user_stack_range(user_stack))
}

/// Whether the check of a buffer can be made: the running application's
/// range and the stack's range exist.
pub open spec fn can_check_range(manager: AppManager, user_stack: UserStack) -> bool {
    &&& manager.can_get_current_app_range()
    &&& user_stack.wf()
}

/// Tells whether `can_check_range` holds.
pub fn check_can_check_range(manager: &AppManager, user_stack: &UserStack) -> (b: bool)
    ensures
        b == can_check_range(*manager, *user_stack),
{
    manager.check_current_app_range() && user_stack.check_wf()
}

/// Checks that the buffer `[buf, buf + len)` lies within the running
/// application's image or within the user stack.
pub fn check_range(manager: &AppManager, user_stack: &UserStack, buf: usize, len: usize) -> (ok: bool)
    requires
        can_check_range(*manager, *user_stack),
    ensures
        ok == spec_check_range(*manager, *user_stack, buf, len),
{
    let app_range = manager.get_current_app_range();
    let user_stack_range = get_user_stack_range(user_stack);
    buffer_within(buf, len, app_range) || buffer_within(buf, len, user_stack_range)
}

/// Reads `bytes` as UTF-8 text: wraps `core::str::from_utf8`, which by its
/// documentation returns the string slice made of exactly these bytes when
/// they are valid UTF-8, and an error otherwise.
#[verifier::external_body]
fn from_utf8(bytes: &[u8]) -> (text: Option<&str>)
    ensures
        text is Some <==> valid_utf8(bytes@),
        text matches Some(s) ==> s.spec_bytes() == bytes@,
{
    core::str::from_utf8(bytes).ok()
}

/// What the kernel does with a `write`.
#[derive(Debug, Clone, Copy, PartialEq, Eq, Structural)]
pub enum WriteOutcome {
    /// The buffer failed the range check: nothing is written, -1 is returned.
    OutOfRange,
    /// The `len` bytes at `buf`, which are valid UTF-8, are printed as text;
    /// `len` is returned.
    Print { buf: usize, len: usize },
    /// The file descriptor is not the standard output: -1 is returned.
    UnsupportedFd,
}

impl WriteOutcome {
    /// The value that the `write` returns to the application.
    pub open spec fn spec_ret(&self) -> isize {
        match *self {
            WriteOutcome::Print { buf, len } => len as isize,
            _ => -1isize,
        }
    }

    /// The value that the `write` returns to the application.
    pub fn ret(&self) -> (r: isize)
        ensures
            r == self.spec_ret(),
    {
        match *self {
            WriteOutcome::Print { buf, len } => len as isize,
            _ => -1,
        }
    }
}

/// The buffer whose bytes the kernel reads to serve `write(fd, buf, len)`:
/// only a buffer that passes the range check, written to the standard output.
pub open spec fn spec_write_buffer(manager: AppManager, user_stack: UserStack, fd: usize, buf: usize, len: usize) -> Option<(usize, usize)> {
    if spec_check_range(manager, user_stack, buf, len) && fd == FD_STDOUT {
        Some((buf, len))
    } else {
        None
    }
}

/// The buffer whose bytes the kernel reads to serve `write(fd, buf, len)`.
pub fn write_buffer(manager: &AppManager, user_stack: &UserStack, fd: usize, buf: usize, len: usize) -> (b: Option<(usize, usize)>)
    requires
        can_check_range(*manager, *user_stack),
    ensures
        b == spec_write_buffer(*manager, *user_stack, fd, buf, len),
{
    if check_range(manager, user_stack, buf, len) && fd == FD_STDOUT {
        Some((buf, len))
    } else {
        None
    }
}

/// Whether `bytes`, read from the buffer of a `write`, can be printed: the
/// kernel prints only valid UTF-8 and stops on anything else.
pub open spec fn write_bytes_fit(write_buffer: Option<(usize, usize)>, bytes: Seq<u8>) -> bool {
    write_buffer matches Some((buf, len)) ==> bytes.len() == len && valid_utf8(bytes)
}

/// Tells whether `bytes` are valid UTF-8, as the kernel requires of the text
/// that it prints.
pub fn is_text(bytes: &[u8]) -> (b: bool)
    ensures
        b == valid_utf8(bytes@),
{
    write_text(bytes).is_some()
}

/// The text that a `write` prints from `bytes`: the string made of exactly
/// these bytes when they are valid UTF-8, and nothing otherwise.
pub fn write_text(bytes: &[u8]) -> (text: Option<&str>)
    ensures
        text is Some <==> valid_utf8(bytes@),
        text matches Some(s) ==> s.spec_bytes() == bytes@,
{
    from_utf8(bytes)
}

/// What the kernel does with `write(fd, buf, len)`.
pub open spec fn spec_sys_write(manager: AppManager, user_stack: UserStack, fd: usize, buf: usize, len: usize) -> WriteOutcome {
    if !spec_check_range(manager, user_stack, buf, len) {
        WriteOutcome::OutOfRange
    } else if fd == FD_STDOUT {
        WriteOutcome::Print { buf, len }
    } else {
        WriteOutcome::UnsupportedFd
    }
}

/// Serves `write(fd, buf, len)`, where `bytes` are the bytes that the caller
/// read from the buffer when `write_buffer` names it: a buffer outside the
/// running application and the user stack is refused; otherwise only the
/// standard output is written to, and only valid UTF-8 text.
pub fn sys_write(manager: &AppManager, user_stack: &UserStack, fd: usize, buf: usize, len: usize, bytes: &[u8]) -> (outcome: WriteOutcome)
    requires
        can_check_range(*manager, *user_stack),
        write_bytes_fit(spec_write_buffer(*manager, *user_stack, fd, buf, len), bytes@),
    ensures
        outcome == spec_sys_write(*manager, *user_stack, fd, buf, len),
{
    if !check_range(manager, user_stack, buf, len) {
        return WriteOutcome::OutOfRange;
    }
    if fd == FD_STDOUT {
        WriteOutcome::Print { buf, len }
    } else {
        WriteOutcome::UnsupportedFd
    }
}

/// Serves "get task info" once the table of applications has been printed:
/// the index of the next application to run.
pub fn sys_get_taskinfo(manager: &AppManager) -> (r: isize)
    ensures
        r == manager.current_app as isize,
{
    manager.get_current_app() as isize
}

/// What the kernel does with a system call.
#[derive(Debug, Clone, Copy, PartialEq, Eq, Structural)]
pub enum SyscallEffect {
    /// A `write`, with what became of it.
    Write(WriteOutcome),
    /// The application exits with `xstate`: the exit is reported and the
    /// next application is run. Nothing returns to the caller.
    Exit { xstate: i32 },
    /// "Get task info": the table of applications is printed and
    /// `current_app` is returned.
    GetTaskInfo { current_app: isize },
}

impl SyscallEffect {
    /// The value handed back to the application, for the calls that return.
    pub open spec fn spec_return_value(&self) -> Option<isize> {
        match *self {
            SyscallEffect::Write(outcome) => Some(outcome.spec_ret()),
            SyscallEffect::GetTaskInfo { current_app } => Some(current_app),
            SyscallEffect::Exit { .. } => None,
        }
    }

    /// The value handed back to the application, for the calls that return.
    pub fn return_value(&self) -> (r: Option<isize>)
        ensures
            r == self.spec_return_value(),
    {
        match self {
            SyscallEffect::Write(outcome) => Some(outcome.ret()),
            SyscallEffect::GetTaskInfo { current_app } => Some(*current_app),
            SyscallEffect::Exit { .. } => None,
        }
    }
}

/// Whether the kernel serves system call `id`: `write`, `exit` and "get task
/// info"; it stops on any other number.
pub open spec fn syscall_is_supported(id: usize) -> bool {
    id == SYSCALL_WRITE || id == SYSCALL_EXIT || id == SYSCALL_GET_TASKINFO
}

/// Tells whether the kernel serves system call `id`.
pub fn is_supported_syscall(id: usize) -> (b: bool)
    ensures
        b == syscall_is_supported(id),
{
    id == SYSCALL_WRITE || id == SYSCALL_EXIT || id == SYSCALL_GET_TASKINFO
}

/// What the kernel does with system call `id` and arguments `args`.
pub open spec fn spec_syscall(manager: AppManager, user_stack: UserStack, id: usize, args: [usize; 3]) -> SyscallEffect {
    if id == SYSCALL_WRITE {
        SyscallEffect::Write(spec_sys_write(manager, user_stack, args@[0], args@[1], args@[2]))
    } else if id == SYSCALL_EXIT {
        SyscallEffect::Exit { xstate: args@[0] as i32 }
    } else {
        SyscallEffect::GetTaskInfo { current_app: manager.current_app as isize }
    }
}

/// The buffer whose bytes the kernel reads to serve system call `id` with
/// `args`, if any.
pub open spec fn spec_syscall_write_buffer(manager: AppManager, user_stack: UserStack, id: usize, args: [usize; 3]) -> Option<(usize, usize)> {
    if id == SYSCALL_WRITE {
        spec_write_buffer(manager, user_stack, args@[0], args@[1], args@[2])
    } else {
        None
    }
}

/// Whether system call `id` with `args` can be served: the number is one the
/// kernel serves, a `write`'s buffer can be checked, and the count has room
/// for one more.
pub open spec fn can_serve_syscall(
    monitor: SyscallMonitor,
    manager: AppManager,
    user_stack: UserStack,
    id: usize,
    args: [usize; 3],
) -> bool {
    &&& syscall_is_supported(id)
    &&& id == SYSCALL_WRITE ==> can_check_range(manager, user_stack)
    &&& monitor@[id as int] < usize::MAX
}

/// Tells whether `can_serve_syscall` holds.
pub fn check_can_serve_syscall(
    monitor: &SyscallMonitor,
    manager: &AppManager,
    user_stack: &UserStack,
    id: usize,
    args: [usize; 3],
) -> (b: bool)
    ensures
        b == can_serve_syscall(*monitor, *manager, *user_stack, id, args),
{
    if !is_supported_syscall(id) {
        return false;
    }
    if id == SYSCALL_WRITE && !check_can_check_range(manager, user_stack) {
        return false;
    }
    monitor.get(id) < usize::MAX
}

/// Dispatches system call `id` with arguments `args`, and counts the call;
/// `bytes` are what the caller read from the buffer that
/// `spec_syscall_write_buffer` names, if it names one.
pub fn syscall(
    monitor: &mut SyscallMonitor,
    manager: &AppManager,
    user_stack: &UserStack,
    id: usize,
    args: [usize; 3],
    bytes: &[u8],
) -> (effect: SyscallEffect)
    requires
        can_serve_syscall(*old(monitor), *manager, *user_stack, id, args),
        write_bytes_fit(spec_syscall_write_buffer(*manager, *user_stack, id, args), bytes@),
    ensures
        effect == spec_syscall(*manager, *user_stack, id, args),
        final(monitor)@ == count_call(old(monitor)@, id),
        final(monitor)@[id as int] == old(monitor)@[id as int] + 1,
        id == SYSCALL_EXIT ==> effect == (SyscallEffect::Exit { xstate: args@[0] as i32 }),
        id == SYSCALL_GET_TASKINFO ==> effect == (SyscallEffect::GetTaskInfo {
            current_app: manager.current_app as isize,
        }),
        id == SYSCALL_WRITE ==> effect is Write,
{
    proof {
        old(monitor).lemma_len();
    }
    monitor.add(id);
    if id == SYSCALL_WRITE {
        SyscallEffect::Write(sys_write(manager, user_stack, args[0], args[1], args[2], bytes))
    } else if id == SYSCALL_EXIT {
        SyscallEffect::Exit { xstate: args[0] as i32 }
    } else {
        SyscallEffect::GetTaskInfo { current_app: sys_get_taskinfo(manager) }
    }
}

/// Whether the buffer `[buf, buf + len)` lies wholly within the running
/// application's image `[APP_BASE_ADDRESS, APP_BASE_ADDRESS + size)`, or
/// wholly within the user stack `[data_addr, data_addr + USER_STACK_SIZE)`,
/// written out from the table and the stack themselves.
pub open spec fn buffer_in_app_or_stack(manager: AppManager, user_stack: UserStack, buf: usize, len: usize) -> bool {
    let k = manager.current_app;
    let image_size = manager.app_start@[k as int] - manager.app_start@[k - 1];
    ||| APP_BASE_ADDRESS <= buf && buf + len <= APP_BASE_ADDRESS + image_size
    ||| user_stack.data_addr <= buf && buf + len <= user_stack.data_addr + USER_STACK_SIZE
}

/// What a `write` does, stated with the ranges themselves: a buffer that lies
/// wholly within the running application's image or wholly within the user
/// stack is accepted, any other is refused with -1; an accepted buffer is
/// printed (its bytes read, `len` returned) exactly when `fd` is the standard
/// output, and otherwise -1 is returned.
pub proof fn lemma_write_accepts_exactly_app_and_stack_buffers(
    manager: AppManager,
    user_stack: UserStack,
    fd: usize,
    buf: usize,
    len: usize,
)
    requires
        can_check_range(manager, user_stack),
    ensures
        spec_check_range(manager, user_stack, buf, len) == buffer_in_app_or_stack(manager, user_stack, buf, len),
        !buffer_in_app_or_stack(manager, user_stack, buf, len) ==> spec_sys_write(manager, user_stack, fd, buf, len)
            == WriteOutcome::OutOfRange,
        buffer_in_app_or_stack(manager, user_stack, buf, len) && fd == 1 ==> spec_sys_write(
            manager,
            user_stack,
            fd,
            buf,
            len,
        ) == (WriteOutcome::Print { buf, len }),
        buffer_in_app_or_stack(manager, user_stack, buf, len) && fd != 1 ==> spec_sys_write(
            manager,
            user_stack,
            fd,
            buf,
            len,
        ) == WriteOutcome::UnsupportedFd,
        buffer_in_app_or_stack(manager, user_stack, buf, len) && fd == 1 ==> spec_write_buffer(
            manager,
            user_stack,
            fd,
            buf,
            len,
        ) == Some((buf, len)),
        !(buffer_in_app_or_stack(manager, user_stack, buf, len) && fd == 1) ==> spec_write_buffer(
            manager,
            user_stack,
            fd,
            buf,
            len,
        ) is None,
        (spec_sys_write(manager, user_stack, fd, buf, len) == (WriteOutcome::Print { buf, len }))
            <==> (spec_write_buffer(manager, user_stack, fd, buf, len) == Some((buf, len))),
{
}

/// Every `write` hands a value back to the application: `len` when its
/// buffer is printed, -1 otherwise. "Get task info" hands back the index it
/// reports, and an exit hands back nothing.
pub proof fn lemma_return_values(outcome: WriteOutcome, current_app: isize, xstate: i32)
    ensures
        SyscallEffect::Write(outcome).spec_return_value() == Some(
            match outcome {
                WriteOutcome::Print { buf, len } => len as isize,
                _ => -1isize,
            },
        ),
        (SyscallEffect::GetTaskInfo { current_app }).spec_return_value() == Some(current_app),
        (SyscallEffect::Exit { xstate }).spec_return_value() is None,
{
}

/// How the kernel reads a system call: 64 is a `write` of `args[2]` bytes at
/// `args[1]` to `args[0]`, 93 an exit with the low 32 bits of `args[0]`,
/// and 1024 a request for the index of the next application to run.
pub proof fn lemma_syscall_decoding(manager: AppManager, user_stack: UserStack, id: usize, args: [usize; 3])
    ensures
        id == 64 ==> spec_syscall(manager, user_stack, id, args) == SyscallEffect::Write(
            spec_sys_write(manager, user_stack, args@[0], args@[1], args@[2]),
        ),
        id == 64 ==> spec_syscall_write_buffer(manager, user_stack, id, args) == spec_write_buffer(
            manager,
            user_stack,
            args@[0],
            args@[1],
            args@[2],
        ),
        id == 93 ==> spec_syscall(manager, user_stack, id, args) == (SyscallEffect::Exit {
            xstate: args@[0] as i32,
        }),
        id == 1024 ==> spec_syscall(manager, user_stack, id, args) == (SyscallEffect::GetTaskInfo {
            current_app: manager.current_app as isize,
        }),
        id != 64 ==> spec_syscall_write_buffer(manager, user_stack, id, args) is None,
        syscall_is_supported(id) <==> (id == 64 || id == 93 || id == 1024),
{
}

} // verus!
