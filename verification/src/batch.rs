//! The batch system: the stacks, the table of applications, and the order in
//! which the applications are loaded and run.

use vstd::prelude::*;
use crate::config::{
    APP_BASE_ADDRESS, KERNEL_STACK_SIZE, MAX_APP_NUM, QEMU_CLOCK_FREQ, SYSCALL_EXIT,
    SYSCALL_GET_TASKINFO, SYSCALL_WRITE, USER_STACK_SIZE,
};
use crate::syscall::{get_syscall_count, SyscallMonitor};

verus! {

/// The kernel stack, known by the address of its lowest byte.
pub struct KernelStack {
    pub data_addr: usize,
}

impl KernelStack {
    /// The stack is aligned to a page, and its top lies within the address
    /// space.
    pub open spec fn wf(&self) -> bool {
        &&& self.data_addr % 4096 == 0
        &&& self.data_addr + KERNEL_STACK_SIZE <= usize::MAX
    }

    /// Tells whether `wf` holds.
    pub fn check_wf(&self) -> (b: bool)
        ensures
            b == self.wf(),
    {
        self.data_addr % 4096 == 0 && self.data_addr <= usize::MAX - KERNEL_STACK_SIZE
    }

    /// The initial stack pointer: one past the stack's highest byte.
    pub fn get_sp(&self) -> (sp: usize)
        requires
            self.wf(),
        ensures
            sp == self.data_addr + KERNEL_STACK_SIZE,
    {
        self.data_addr + KERNEL_STACK_SIZE
    }

    /// The address at which a trap context of `context_size` bytes is pushed:
    /// it ends exactly at the stack's top, lies inside the stack whenever it
    /// is no larger than the stack, and is aligned to 8 bytes whenever its
    /// size is a multiple of 8.
    pub fn push_context(&self, context_size: usize) -> (addr: usize)
        requires
            self.wf(),
            context_size <= self.data_addr + KERNEL_STACK_SIZE,
        ensures
            addr + context_size == self.data_addr + KERNEL_STACK_SIZE,
            context_size <= KERNEL_STACK_SIZE ==> self.data_addr <= addr,
            context_size % 8 == 0 ==> addr % 8 == 0,
    {
        let addr = self.get_sp() - context_size;
        assert(context_size % 8 == 0 ==> addr % 8 == 0) by {
            assert(KERNEL_STACK_SIZE == 8192);
        }
        addr
    }
}

/// The user stack, known by the address of its lowest byte.
pub struct UserStack {
    pub data_addr: usize,
}

impl UserStack {
    /// The stack is aligned to a page, and its top lies within the address
    /// space.
    pub open spec fn wf(&self) -> bool {
        &&& self.data_addr % 4096 == 0
        &&& self.data_addr + USER_STACK_SIZE <= usize::MAX
    }

    /// Tells whether `wf` holds.
    pub fn check_wf(&self) -> (b: bool)
        ensures
            b == self.wf(),
    {
        self.data_addr % 4096 == 0 && self.data_addr <= usize::MAX - USER_STACK_SIZE
    }

    /// The initial user stack pointer: one past the stack's highest byte.
    pub fn get_sp(&self) -> (sp: usize)
        requires
            self.wf(),
        ensures
            sp == self.data_addr + USER_STACK_SIZE,
    {
        self.data_addr + USER_STACK_SIZE
    }
}

/// The half-open address range `[start, end)` of the user stack.
pub open spec fn spec_user_stack_range(user_stack: UserStack) -> (usize, usize) {
    (user_stack.data_addr, (user_stack.data_addr + USER_STACK_SIZE) as usize)
}

/// The half-open address range of the user stack: it ends at the initial
/// stack pointer, spans exactly `USER_STACK_SIZE` bytes, and starts on a
/// page boundary.
pub fn get_user_stack_range(user_stack: &UserStack) -> (range: (usize, usize))
    requires
        user_stack.wf(),
    ensures
        range == spec_user_stack_range(*user_stack),
        range.1 == user_stack.data_addr + USER_STACK_SIZE,
        range.1 - range.0 == USER_STACK_SIZE,
        range.0 % 4096 == 0,
{
    let sp = user_stack.get_sp();
    (sp - USER_STACK_SIZE, sp)
}

/// What has to be done to run the application with a given index.
#[derive(Debug, Clone, Copy, PartialEq, Eq, Structural)]
pub enum LoadAction {
    /// Every application has run: report the statistics and shut down.
    AllCompleted,
    /// Clear `APP_SIZE_LIMIT` bytes at `APP_BASE_ADDRESS`, then copy the
    /// `len` bytes of the image that starts at `src` there.
    Load { src: usize, len: usize },
}

/// The table of applications linked into the kernel, with the index of the
/// next one to run and the ticks at which each one started and ended.
///
/// Slot `i` of `app_start` holds the address at which image `i` starts, and
/// slot `num_app` the address at which the last image ends.
pub struct AppManager {
    pub num_app: usize,
    pub current_app: usize,
    pub app_start: [usize; 17],
    pub start_tick: [usize; 17],
    pub end_tick: [usize; 17],
}

/// The figures reported once every application has run.
pub struct Statistic {
    /// The count of `write` calls (number 64).
    pub write_count: usize,
    /// The count of `exit` calls (number 93).
    pub exit_count: usize,
    /// The count of "get task info" calls (number 1024).
    pub taskinfo_count: usize,
    /// For each application, the microseconds it ran for.
    pub app_costs_us: Vec<usize>,
}

/// Timer ticks per microsecond.
pub open spec fn ticks_per_us() -> usize {
    (QEMU_CLOCK_FREQ / 1_000_000) as usize
}

/// The manager after `move_to_next_app`: only the index of the next
/// application changes, by one.
pub open spec fn spec_move_to_next_app(pre: AppManager, post: AppManager) -> bool {
    &&& post.current_app == pre.current_app + 1
    &&& post.num_app == pre.num_app
    &&& post.app_start == pre.app_start
    &&& post.start_tick == pre.start_tick
    &&& post.end_tick == pre.end_tick
}

/// The effect of `run_next_app` on the manager, given the tick at which it ran
/// and the action it returned.
pub open spec fn spec_run_next_app(pre: AppManager, post: AppManager, tick: usize, action: LoadAction) -> bool {
    let k = pre.current_app;
    &&& post.num_app == pre.num_app
    &&& post.app_start == pre.app_start
    &&& post.start_tick@ == pre.start_tick@.update(k as int, tick)
    &&& post.end_tick@ == (if k > 0 { pre.end_tick@.update(k - 1, tick) } else { pre.end_tick@ })
    &&& action == pre.spec_load_app(k)
    &&& post.current_app == (if action is Load { k + 1 } else { k as int })
}

impl AppManager {
    /// At most `MAX_APP_NUM` applications are held, so that slot `num_app`
    /// of the table exists.
    pub open spec fn wf(&self) -> bool {
        self.num_app <= MAX_APP_NUM
    }

    /// The manager built from the table that the linker lays out: the number
    /// of applications, then the `num_app + 1` addresses that bound their
    /// images. No application has run yet and no tick is recorded.
    pub fn new(num_app: usize, app_start_raw: &[usize]) -> (manager: AppManager)
        requires
            num_app <= MAX_APP_NUM,
            app_start_raw@.len() == num_app + 1,
        ensures
            manager.wf(),
            manager.num_app == num_app,
            manager.current_app == 0,
            forall|i: int| 0 <= i <= num_app ==> manager.app_start@[i] == app_start_raw@[i],
            forall|i: int| num_app < i < 17 ==> manager.app_start@[i] == 0,
            forall|i: int| 0 <= i < 17 ==> manager.start_tick@[i] == 0 && manager.end_tick@[i] == 0,
    {
        let mut app_start: [usize; 17] = [0; 17];
        let mut i: usize = 0;
        while i <= num_app
            invariant
                num_app <= MAX_APP_NUM,
                app_start_raw@.len() == num_app + 1,
                i <= num_app + 1,
                forall|j: int| 0 <= j < i ==> app_start@[j] == app_start_raw@[j],
                forall|j: int| i <= j < 17 ==> app_start@[j] == 0,
            decreases num_app + 1 - i,
        {
            app_start[i] = app_start_raw[i];
            i = i + 1;
        }
        AppManager { num_app, current_app: 0, app_start, start_tick: [0; 17], end_tick: [0; 17] }
    }

    /// Whether `load_app(id)` can compute its action: either `id` is past
    /// the last application, or the slot after `id` exists and the image
    /// bounds are in order.
    pub open spec fn can_load_app(&self, id: usize) -> bool {
        ||| id > self.num_app
        ||| (id + 1 < 17 && self.app_start@[id as int] <= self.app_start@[id + 1])
    }

    /// The action that `load_app(id)` returns.
    pub open spec fn spec_load_app(&self, id: usize) -> LoadAction {
        if id > self.num_app {
            LoadAction::AllCompleted
        } else {
            LoadAction::Load {
                src: self.app_start@[id as int],
                len: (self.app_start@[id + 1] - self.app_start@[id as int]) as usize,
            }
        }
    }

    /// What has to be done to run application `id`: past the last
    /// application everything is done; otherwise its image, bounded by slots
    /// `id` and `id + 1` of the table, is loaded.
    pub fn load_app(&self, id: usize) -> (action: LoadAction)
        requires
            self.wf(),
            self.can_load_app(id),
        ensures
            action == self.spec_load_app(id),
            id > self.num_app ==> action == LoadAction::AllCompleted,
            id <= self.num_app ==> action == (LoadAction::Load {
                src: self.app_start@[id as int],
                len: (self.app_start@[id + 1] - self.app_start@[id as int]) as usize,
            }),
    {
        if id > self.num_app {
            LoadAction::AllCompleted
        } else {
            LoadAction::Load {
                src: self.app_start[id],
                len: self.app_start[id + 1] - self.app_start[id],
            }
        }
    }

    /// The index of the next application to run.
    pub fn get_current_app(&self) -> (id: usize)
        ensures
            id == self.current_app,
    {
        self.current_app
    }

    /// Advances to the next application; nothing else changes.
    pub fn move_to_next_app(&mut self)
        requires
            old(self).current_app < usize::MAX,
        ensures
            spec_move_to_next_app(*old(self), *final(self)),
    {
        self.current_app = self.current_app + 1;
    }

    /// The number of ticks that application `id` ran for, or `usize::MAX`
    /// when there is no such application.
    pub fn get_app_tick(&self, id: usize) -> (ticks: usize)
        requires
            self.wf(),
            id > self.num_app || self.start_tick@[id as int] <= self.end_tick@[id as int],
        ensures
            ticks == (if id > self.num_app {
                usize::MAX as int
            } else {
                self.end_tick@[id as int] - self.start_tick@[id as int]
            }),
    {
        if id > self.num_app {
            return usize::MAX;
        }
        self.end_tick[id] - self.start_tick[id]
    }

    /// Each of the first `n` applications has ended no earlier than it
    /// started.
    pub open spec fn ticks_in_order_below(&self, n: int) -> bool {
        forall|i: int| 0 <= i < n ==> self.start_tick@[i] <= self.end_tick@[i]
    }

    /// Every application has ended no earlier than it started.
    pub open spec fn ticks_in_order(&self) -> bool {
        self.ticks_in_order_below(self.num_app as int)
    }

    /// Tells whether `ticks_in_order` holds.
    pub fn check_ticks_in_order(&self) -> (b: bool)
        requires
            self.wf(),
        ensures
            b == self.ticks_in_order(),
    {
        let mut i: usize = 0;
        while i < self.num_app
            invariant
                self.wf(),
                i <= self.num_app,
                self.ticks_in_order_below(i as int),
            decreases self.num_app - i,
        {
            if self.start_tick[i] > self.end_tick[i] {
                return false;
            }
            i = i + 1;
        }
        true
    }

    /// The figures reported once every application has run: the counts of
    /// the system calls, and the time that each application ran for.
    pub fn statistic(&self, monitor: &SyscallMonitor) -> (stat: Statistic)
        requires
            self.wf(),
            self.ticks_in_order(),
        ensures
            stat.write_count == monitor@[SYSCALL_WRITE as int],
            stat.exit_count == monitor@[SYSCALL_EXIT as int],
            stat.taskinfo_count == monitor@[SYSCALL_GET_TASKINFO as int],
            stat.app_costs_us@.len() == self.num_app,
            forall|i: int|
                0 <= i < self.num_app ==> stat.app_costs_us@[i] == (self.end_tick@[i] - self.start_tick@[i])
                    / (ticks_per_us() as int),
    {
        let write_count = get_syscall_count(monitor, SYSCALL_WRITE);
        let exit_count = get_syscall_count(monitor, SYSCALL_EXIT);
        let taskinfo_count = get_syscall_count(monitor, SYSCALL_GET_TASKINFO);
        let mut app_costs_us: Vec<usize> = Vec::new();
        let mut i: usize = 0;
        while i < self.num_app
            invariant
                self.wf(),
                self.ticks_in_order(),
                i <= self.num_app,
                app_costs_us@.len() == i,
                forall|j: int|
                    0 <= j < i ==> app_costs_us@[j] == (self.end_tick@[j] - self.start_tick@[j]) / (
                    ticks_per_us() as int),
            decreases self.num_app - i,
        {
            let ticks = self.get_app_tick(i);
            app_costs_us.push(ticks / (QEMU_CLOCK_FREQ / 1_000_000));
            i = i + 1;
        }
        Statistic { write_count, exit_count, taskinfo_count, app_costs_us }
    }

    /// Whether the address range of the running application can be computed.
    pub open spec fn can_get_current_app_range(&self) -> bool {
        let k = self.current_app;
        &&& 1 <= k < 17
        &&& self.app_start@[k - 1] <= self.app_start@[k as int]
        &&& APP_BASE_ADDRESS + (self.app_start@[k as int] - self.app_start@[k - 1]) <= usize::MAX
    }

    /// Tells whether `can_get_current_app_range` holds.
    pub fn check_current_app_range(&self) -> (b: bool)
        ensures
            b == self.can_get_current_app_range(),
    {
        let k = self.current_app;
        if k < 1 || k >= 17 {
            return false;
        }
        if self.app_start[k - 1] > self.app_start[k] {
            return false;
        }
        self.app_start[k] - self.app_start[k - 1] <= usize::MAX - APP_BASE_ADDRESS
    }

    /// Tells whether `run_next_app` can be called on this manager.
    pub fn check_run_next_app(&self) -> (b: bool)
        requires
            self.wf(),
        ensures
            b == (self.current_app < 17 && self.can_load_app(self.current_app)),
    {
        let k = self.current_app;
        if k >= 17 {
            return false;
        }
        k > self.num_app || (k + 1 < 17 && self.app_start[k] <= self.app_start[k + 1])
    }

    /// The half-open address range of the running application (the one
    /// before `current_app`), as it lies once loaded at `APP_BASE_ADDRESS`.
    pub open spec fn spec_current_app_range(&self) -> (usize, usize) {
        let k = self.current_app;
        (APP_BASE_ADDRESS, (APP_BASE_ADDRESS + self.app_start@[k as int] - self.app_start@[k - 1]) as usize)
    }

    /// The half-open address range that the running application occupies.
    pub fn get_current_app_range(&self) -> (range: (usize, usize))
        requires
            self.can_get_current_app_range(),
        ensures
            range == self.spec_current_app_range(),
            range.0 == APP_BASE_ADDRESS,
            range.1 - range.0 == self.app_start@[self.current_app as int] - self.app_start@[self.current_app - 1],
    {
        let k = self.current_app;
        (APP_BASE_ADDRESS, APP_BASE_ADDRESS + (self.app_start[k] - self.app_start[k - 1]))
    }
}

/// Records `current_tick` as the end of the application that ran last and the
/// start of the next one, then works out how to run that one; when it is to
/// be loaded, the manager moves past it.
pub fn run_next_app(manager: &mut AppManager, current_tick: usize) -> (action: LoadAction)
    requires
        old(manager).wf(),
        old(manager).current_app < 17,
        old(manager).can_load_app(old(manager).current_app),
    ensures
        final(manager).wf(),
        spec_run_next_app(*old(manager), *final(manager), current_tick, action),
        old(manager).current_app <= old(manager).num_app ==> {
            &&& action == (LoadAction::Load {
                src: old(manager).app_start@[old(manager).current_app as int],
                len: (old(manager).app_start@[old(manager).current_app + 1]
                    - old(manager).app_start@[old(manager).current_app as int]) as usize,
            })
            &&& final(manager).current_app == old(manager).current_app + 1
        },
        old(manager).current_app > old(manager).num_app ==> {
            &&& action == LoadAction::AllCompleted
            &&& final(manager).current_app == old(manager).current_app
        },
{
    let current_app = manager.get_current_app();
    if current_app > 0 {
        manager.end_tick[current_app - 1] = current_tick;
    }
    manager.start_tick[current_app] = current_tick;
    let action = manager.load_app(current_app);
    if let LoadAction::Load { .. } = action {
        manager.move_to_next_app();
    }
    action
}

/// The application that `run_next_app` loads occupies, while it runs, exactly
/// the region its image was copied to: the range that the kernel accepts as
/// the running application's is `[APP_BASE_ADDRESS, APP_BASE_ADDRESS + len)`.
pub proof fn lemma_running_app_range_is_loaded_image(pre: AppManager, post: AppManager, tick: usize, action: LoadAction)
    requires
        pre.wf(),
        pre.current_app < 17,
        pre.can_load_app(pre.current_app),
        spec_run_next_app(pre, post, tick, action),
        action is Load,
        APP_BASE_ADDRESS + action->len <= usize::MAX,
    ensures
        post.can_get_current_app_range(),
        post.spec_current_app_range() == (APP_BASE_ADDRESS, (APP_BASE_ADDRESS + action->len) as usize),
{
}

/// With a clock that does not go back, the ticks stay in order: once
/// `run_next_app` has run, every application before the one it was called for
/// is recorded as ending no earlier than it started.
pub proof fn lemma_run_next_app_keeps_ticks_in_order(pre: AppManager, post: AppManager, tick: usize, action: LoadAction)
    requires
        pre.current_app < 17,
        spec_run_next_app(pre, post, tick, action),
        pre.current_app > 0 ==> pre.ticks_in_order_below(pre.current_app - 1),
        pre.current_app > 0 ==> pre.start_tick@[pre.current_app - 1] <= tick,
    ensures
        post.ticks_in_order_below(pre.current_app as int),
{
}

/// Advancing `k` times moves the index of the next application on by `k`:
/// from a freshly built manager, after `k` advances it is `k`.
pub proof fn lemma_advances_count(ms: Seq<AppManager>)
    requires
        ms.len() >= 1,
        forall|j: int| 0 <= j < ms.len() - 1 ==> #[trigger] spec_move_to_next_app(ms[j], ms[j + 1]),
    ensures
        ms.last().current_app == ms[0].current_app + (ms.len() - 1),
        ms.last().num_app == ms[0].num_app,
        ms.last().app_start == ms[0].app_start,
    decreases ms.len(),
{
    if ms.len() > 1 {
        let prefix = ms.drop_last();
        assert forall|j: int| 0 <= j < prefix.len() - 1 implies #[trigger] spec_move_to_next_app(prefix[j], prefix[j + 1]) by {
            assert(spec_move_to_next_app(ms[j], ms[j + 1]));
        }
        lemma_advances_count(prefix);
        let j = ms.len() - 2;
        assert(spec_move_to_next_app(ms[j], ms[j + 1]));
    }
}

/// `ms[j + 1]` is what `run_next_app` makes of `ms[j]` when it is entered at
/// tick `ticks[j]` and returns `actions[j]`.
pub open spec fn is_batch_run(ms: Seq<AppManager>, ticks: Seq<usize>, actions: Seq<LoadAction>) -> bool {
    &&& ms.len() == ticks.len() + 1
    &&& actions.len() == ticks.len()
    &&& forall|j: int| 0 <= j < ticks.len() ==> #[trigger] spec_run_next_app(ms[j], ms[j + 1], ticks[j], actions[j])
}

/// A batch run: starting from a freshly built manager, `run_next_app` is
/// entered at ticks that do not go back, at most once per application plus
/// once more. Then entry `j` loads application `j`, each application starts
/// at the tick of the entry that loaded it and ends at the tick of the next
/// entry, so that it ran for the difference, and the table never changes.
pub proof fn lemma_batch_run(ms: Seq<AppManager>, ticks: Seq<usize>, actions: Seq<LoadAction>)
    requires
        is_batch_run(ms, ticks, actions),
        ms[0].wf(),
        ms[0].current_app == 0,
        ticks.len() <= ms[0].num_app + 1,
        forall|i: int, j: int| 0 <= i <= j < ticks.len() ==> ticks[i] <= ticks[j],
    ensures
        ms.last().num_app == ms[0].num_app,
        ms.last().app_start == ms[0].app_start,
        ms.last().current_app == ticks.len(),
        forall|j: int| 0 <= j < ticks.len() ==> actions[j] == #[trigger] ms[0].spec_load_app(j as usize),
        forall|i: int| 0 <= i < ticks.len() ==> #[trigger] ms.last().start_tick@[i] == ticks[i],
        forall|i: int| 0 <= i < ticks.len() - 1 ==> #[trigger] ms.last().end_tick@[i] == ticks[i + 1],
        ms.last().ticks_in_order_below(ticks.len() - 1),
    decreases ticks.len(),
{
    let s = ticks.len();
    if s > 0 {
        let pm = ms.drop_last();
        let pt = ticks.drop_last();
        let pa = actions.drop_last();
        assert forall|j: int| 0 <= j < pt.len() implies #[trigger] spec_run_next_app(pm[j], pm[j + 1], pt[j], pa[j]) by {
            assert(spec_run_next_app(ms[j], ms[j + 1], ticks[j], actions[j]));
        }
        lemma_batch_run(pm, pt, pa);
        assert(spec_run_next_app(ms[s - 1], ms[s as int], ticks[s - 1], actions[s - 1]));
        assert forall|i: int| 0 <= i < s - 1 implies ms.last().start_tick@[i] <= ms.last().end_tick@[i] by {
            assert(ms.last().start_tick@[i] == ticks[i]);
            assert(ms.last().end_tick@[i] == ticks[i + 1]);
        }
    }
}

/// Running application `id` copies exactly its own image: for an
/// application of the table whose bounds are in order, the copy starts at
/// slot `id` and ends at slot `id + 1`, so images are neither skipped nor
/// overlapped; past the last application nothing is loaded.
pub proof fn lemma_load_app_copies_the_image(m: AppManager, id: usize)
    requires
        m.wf(),
        id <= m.num_app ==> id + 1 < 17 && m.app_start@[id as int] <= m.app_start@[id + 1],
    ensures
        id <= m.num_app ==> {
            &&& m.spec_load_app(id) is Load
            &&& m.spec_load_app(id)->src == m.app_start@[id as int]
            &&& m.spec_load_app(id)->src + m.spec_load_app(id)->len == m.app_start@[id + 1]
        },
        id > m.num_app ==> m.spec_load_app(id) is AllCompleted,
{
}

/// The range of the running application starts at `APP_BASE_ADDRESS` and
/// is as long as the image of the application before `current_app`.
pub proof fn lemma_current_app_range_is_the_running_image(m: AppManager)
    requires
        1 <= m.current_app < 17,
        m.app_start@[m.current_app - 1] <= m.app_start@[m.current_app as int],
        APP_BASE_ADDRESS + (m.app_start@[m.current_app as int] - m.app_start@[m.current_app - 1]) <= usize::MAX,
    ensures
        m.spec_current_app_range().0 == APP_BASE_ADDRESS,
        m.spec_current_app_range().1 == APP_BASE_ADDRESS + m.app_start@[m.current_app as int]
            - m.app_start@[m.current_app - 1],
{
}

/// The user stack's range runs from its lowest byte to its initial stack
/// pointer.
pub proof fn lemma_user_stack_range_is_the_stack(us: UserStack)
    requires
        us.data_addr + USER_STACK_SIZE <= usize::MAX,
    ensures
        spec_user_stack_range(us).0 == us.data_addr,
        spec_user_stack_range(us).1 == us.data_addr + USER_STACK_SIZE,
{
}

/// The machine timer runs at 10 MHz: ten ticks make a microsecond.
pub proof fn lemma_ten_ticks_per_microsecond()
    ensures
        ticks_per_us() == 10,
{
}

} // verus!
