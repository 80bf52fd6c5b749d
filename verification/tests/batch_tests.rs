use batch_os::batch::{
    get_user_stack_range, run_next_app, AppManager, KernelStack, LoadAction, UserStack,
};
use batch_os::config::{APP_BASE_ADDRESS, KERNEL_STACK_SIZE, USER_STACK_SIZE};
use batch_os::syscall::SyscallMonitor;

fn three_apps() -> AppManager {
    AppManager::new(3, &[0x8020_0000, 0x8020_1000, 0x8020_1800, 0x8020_4000])
}

#[test]
fn new_manager_copies_the_link_table() {
    let m = three_apps();
    assert_eq!(m.num_app, 3);
    assert_eq!(m.current_app, 0);
    assert_eq!(&m.app_start[..4], &[0x8020_0000, 0x8020_1000, 0x8020_1800, 0x8020_4000]);
    assert!(m.app_start[4..].iter().all(|&a| a == 0));
    assert!(m.start_tick.iter().all(|&t| t == 0));
    assert!(m.end_tick.iter().all(|&t| t == 0));
}

#[test]
fn load_app_gives_the_image_bounds() {
    let m = three_apps();
    assert_eq!(m.load_app(0), LoadAction::Load { src: 0x8020_0000, len: 0x1000 });
    assert_eq!(m.load_app(1), LoadAction::Load { src: 0x8020_1000, len: 0x800 });
    assert_eq!(m.load_app(2), LoadAction::Load { src: 0x8020_1800, len: 0x2800 });
    assert_eq!(m.load_app(4), LoadAction::AllCompleted);
    assert_eq!(m.load_app(100), LoadAction::AllCompleted);
}

#[test]
fn run_next_app_runs_the_apps_in_order() {
    let mut m = three_apps();
    assert_eq!(run_next_app(&mut m, 10), LoadAction::Load { src: 0x8020_0000, len: 0x1000 });
    assert_eq!(m.get_current_app(), 1);
    assert_eq!(m.start_tick[0], 10);
    assert_eq!(run_next_app(&mut m, 25), LoadAction::Load { src: 0x8020_1000, len: 0x800 });
    assert_eq!(m.get_current_app(), 2);
    assert_eq!(m.end_tick[0], 25);
    assert_eq!(m.start_tick[1], 25);
    assert_eq!(run_next_app(&mut m, 47), LoadAction::Load { src: 0x8020_1800, len: 0x2800 });
    assert_eq!(m.get_current_app(), 3);
    assert_eq!(m.end_tick[1], 47);
    assert_eq!(m.get_app_tick(0), 15);
    assert_eq!(m.get_app_tick(1), 22);
}

#[test]
fn run_next_app_past_the_table_completes_without_moving() {
    // A table whose slot after the last image still reads as a bound.
    let mut m = AppManager::new(1, &[0x1000, 0x1400]);
    m.app_start[2] = 0x1400;
    assert_eq!(run_next_app(&mut m, 1), LoadAction::Load { src: 0x1000, len: 0x400 });
    assert_eq!(run_next_app(&mut m, 5), LoadAction::Load { src: 0x1400, len: 0 });
    assert_eq!(m.current_app, 2);
    assert_eq!(run_next_app(&mut m, 9), LoadAction::AllCompleted);
    assert_eq!(m.current_app, 2);
    assert_eq!(m.end_tick[1], 9);
    assert_eq!(m.start_tick[2], 9);
    assert_eq!(m.get_app_tick(0), 4);
}

#[test]
fn get_app_tick_of_unknown_app_is_max() {
    let m = three_apps();
    assert_eq!(m.get_app_tick(4), usize::MAX);
    assert_eq!(m.get_app_tick(3), 0);
}

#[test]
fn move_to_next_app_advances_by_one() {
    let mut m = three_apps();
    m.move_to_next_app();
    m.move_to_next_app();
    assert_eq!(m.get_current_app(), 2);
    assert_eq!(m.num_app, 3);
}

#[test]
fn current_app_range_is_the_loaded_image() {
    let mut m = three_apps();
    let action = run_next_app(&mut m, 0);
    let len = match action {
        LoadAction::Load { len, .. } => len,
        LoadAction::AllCompleted => unreachable!(),
    };
    assert_eq!(m.get_current_app_range(), (APP_BASE_ADDRESS, APP_BASE_ADDRESS + len));
    run_next_app(&mut m, 1);
    assert_eq!(m.get_current_app_range(), (0x8040_0000, 0x8040_0800));
}

#[test]
fn statistic_reports_counts_and_microseconds() {
    let mut m = three_apps();
    run_next_app(&mut m, 100);
    run_next_app(&mut m, 1_100);
    run_next_app(&mut m, 1_125);
    m.end_tick[2] = 2_000;
    let mut monitor = SyscallMonitor::new();
    monitor.add(64);
    monitor.add(64);
    monitor.add(93);
    monitor.add(1024);
    let stat = m.statistic(&monitor);
    assert_eq!(stat.write_count, 2);
    assert_eq!(stat.exit_count, 1);
    assert_eq!(stat.taskinfo_count, 1);
    assert_eq!(stat.app_costs_us, vec![100, 2, 87]);
}

#[test]
fn kernel_stack_context_sits_at_the_top() {
    let ks = KernelStack { data_addr: 0x8021_0000 };
    assert!(ks.check_wf());
    assert_eq!(ks.get_sp(), 0x8021_0000 + KERNEL_STACK_SIZE);
    let addr = ks.push_context(34 * 8);
    assert_eq!(addr, 0x8021_0000 + KERNEL_STACK_SIZE - 272);
    assert_eq!(addr % 8, 0);
    assert_eq!(ks.push_context(0), ks.get_sp());
}

#[test]
fn stacks_must_be_page_aligned() {
    assert!(!KernelStack { data_addr: 0x8021_0008 }.check_wf());
    assert!(!UserStack { data_addr: 0x8022_0100 }.check_wf());
    assert!(!UserStack { data_addr: usize::MAX - 0xfff }.check_wf());
    assert!(UserStack { data_addr: 0 }.check_wf());
}

#[test]
fn user_stack_range_ends_at_sp() {
    let us = UserStack { data_addr: 0x8022_0000 };
    assert!(us.check_wf());
    assert_eq!(us.get_sp(), 0x8022_2000);
    let range = get_user_stack_range(&us);
    assert_eq!(range, (0x8022_0000, 0x8022_0000 + USER_STACK_SIZE));
    assert_eq!(range.0 % 4096, 0);
}

#[test]
fn current_app_range_needs_a_started_app_in_order() {
    let mut m = three_apps();
    assert!(!m.check_current_app_range());
    run_next_app(&mut m, 0);
    assert!(m.check_current_app_range());
    m.app_start[0] = m.app_start[1] + 1;
    assert!(!m.check_current_app_range());
}

#[test]
fn run_next_app_is_refused_past_the_slots_or_out_of_order() {
    let mut m = AppManager::new(1, &[0x1000, 0x1400]);
    assert!(m.check_run_next_app());
    run_next_app(&mut m, 0);
    // Slot 2 reads 0, below slot 1: loading "app 1" would underflow.
    assert!(!m.check_run_next_app());
    m.current_app = 2;
    assert!(m.check_run_next_app());
    m.current_app = 17;
    assert!(!m.check_run_next_app());
}

#[test]
fn ticks_in_order_check() {
    let mut m = three_apps();
    run_next_app(&mut m, 3);
    run_next_app(&mut m, 8);
    assert!(!m.check_ticks_in_order());
    m.end_tick[1] = 8;
    m.end_tick[2] = 0;
    m.start_tick[2] = 0;
    assert!(m.check_ticks_in_order());
}
