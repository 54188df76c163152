use oxideos::colors::dark_theme;
use oxideos::desktop::{create_boot_screen, init_demo_windows, Desktop, POINTER_COLOR};
use oxideos::graphics::Graphics;
use oxideos::main_loop::{
    check_stack_in_main_loop, handoff_ok, stack_state, LoopReport, MainLoop, StackState,
};
use oxideos::syscall::{
    handle_syscall, sys_sleep, SyscallAction, SyscallOutcome, SyscallResult, SystemInfo, EBADF,
    EINVAL, ENOSYS,
};
use oxideos::syscall_handler::{
    init, syscall_handler_wrapper, MsrWrite, IA32_EFER, IA32_FMASK, IA32_LSTAR, IA32_STAR,
};
use oxideos::widgets::{fits, is_manageable, Window};
use oxideos::window_manager::WindowManager;

fn equal(a: &Graphics, b: &Graphics) -> bool {
    let (w, h) = a.get_dimensions();
    a.get_dimensions() == b.get_dimensions()
        && (0..h).all(|y| (0..w).all(|x| a.get_pixel(x, y) == b.get_pixel(x, y)))
}

fn desk() -> (Graphics, WindowManager) {
    let mut graphics = Graphics::new(800, 600, 3200);
    let mut wm = WindowManager::new();
    create_boot_screen(&mut graphics, &mut wm);
    (graphics, wm)
}

#[test]
fn boot_screen_has_a_task_bar_and_two_windows() {
    let (graphics, wm) = desk();
    assert_eq!(wm.stacking_order(), vec![0, 1]);
    let terminal = wm.get_window(0).unwrap();
    assert_eq!((terminal.x, terminal.y, terminal.width, terminal.height), (100, 100, 400, 250));
    assert_eq!(terminal.title, "Terminal");
    let info = wm.get_window(1).unwrap();
    assert_eq!((info.x, info.y, info.width, info.height), (480, 100, 300, 220));
    assert_eq!(info.title, "System Info");
    assert_eq!(wm.get_focused(), Some(1));
    // The windows are not drawn yet; the task bar is, without items.
    assert_eq!(graphics.get_pixel(150, 200), Some(dark_theme::BACKGROUND));
    assert_eq!(graphics.get_pixel(400, 20), Some(dark_theme::SURFACE_VARIANT));
    assert_eq!(graphics.get_pixel(130, 20), Some(dark_theme::SURFACE_VARIANT));
    assert_eq!(graphics.get_pixel(400, 300 + 200), Some(dark_theme::BACKGROUND));
}

#[test]
fn demo_windows_follow_the_screen_width() {
    let mut wm = WindowManager::new();
    init_demo_windows(&mut wm, 320, 200);
    assert_eq!(wm.get_window(1).unwrap().x, 0);
    let mut wm = WindowManager::new();
    init_demo_windows(&mut wm, 1920, 1080);
    assert_eq!(wm.get_window(1).unwrap().x, 1600);
    assert_eq!(wm.get_window(0).unwrap().x, 100);
}

#[test]
fn first_turn_draws_everything_and_the_cursor() {
    let (mut graphics, mut wm) = desk();
    let mut desktop = Desktop::new();
    assert_eq!(desktop.last_cursor_pos, (-1, -1));
    assert!(desktop.needs_redraw);
    desktop.turn(&mut graphics, &mut wm, Some((300, 400)), false);
    assert!(!desktop.needs_redraw);
    assert_eq!(desktop.last_cursor_pos, (300, 400));
    assert!(!desktop.last_left_button);

    let mut expected = Graphics::new(800, 600, 3200);
    Desktop::redraw(&mut expected, &wm);
    // The kept pixels are those of the picture without the cursor.
    for row in 0..19u64 {
        for col in 0..11u64 {
            assert_eq!(
                Some(desktop.saved_pixels[row as usize][col as usize]),
                expected.get_pixel(300 + col, 400 + row)
            );
        }
    }
    expected.draw_cursor(300, 400, POINTER_COLOR);
    assert!(equal(&graphics, &expected));
    assert_eq!(graphics.get_pixel(300, 400), Some(POINTER_COLOR));
}

#[test]
fn moving_the_cursor_leaves_no_trace() {
    let (mut graphics, mut wm) = desk();
    let mut desktop = Desktop::new();
    desktop.turn(&mut graphics, &mut wm, Some((300, 400)), false);
    desktop.turn(&mut graphics, &mut wm, Some((120, 130)), false);
    assert!(!desktop.needs_redraw);
    let mut expected = Graphics::new(800, 600, 3200);
    Desktop::redraw(&mut expected, &wm);
    expected.draw_cursor(120, 130, POINTER_COLOR);
    assert!(equal(&graphics, &expected));
    assert_eq!(wm.stacking_order(), vec![0, 1]);
}

#[test]
fn press_raises_and_drag_moves_a_window() {
    let (mut graphics, mut wm) = desk();
    let mut desktop = Desktop::new();
    desktop.turn(&mut graphics, &mut wm, Some((300, 400)), false);
    // Press on the title bar of the terminal, which lies below.
    desktop.turn(&mut graphics, &mut wm, Some((150, 110)), true);
    assert_eq!(wm.get_focused(), Some(0));
    assert_eq!(wm.stacking_order(), vec![1, 0]);
    assert!(wm.is_dragging());
    assert!(desktop.last_left_button);
    // Held and moved: the window follows.
    desktop.turn(&mut graphics, &mut wm, Some((170, 140)), true);
    let terminal = *wm.get_window(0).unwrap();
    assert_eq!((terminal.x, terminal.y), (120, 130));
    // Held and not moved: nothing changes.
    desktop.turn(&mut graphics, &mut wm, Some((170, 140)), true);
    assert_eq!(wm.get_window(0).unwrap().x, 120);
    assert!(wm.is_dragging());
    // Let go.
    desktop.turn(&mut graphics, &mut wm, Some((170, 140)), false);
    assert!(!wm.is_dragging());
    assert!(!desktop.last_left_button);
    desktop.turn(&mut graphics, &mut wm, Some((500, 500)), false);
    assert_eq!(wm.get_window(0).unwrap().x, 120);

    let mut expected = Graphics::new(800, 600, 3200);
    Desktop::redraw(&mut expected, &wm);
    expected.draw_cursor(500, 500, POINTER_COLOR);
    assert!(equal(&graphics, &expected));
}

#[test]
fn turn_without_a_mouse_only_redraws() {
    let (mut graphics, mut wm) = desk();
    let mut desktop = Desktop::new();
    desktop.turn(&mut graphics, &mut wm, None, true);
    assert_eq!(desktop.last_cursor_pos, (-1, -1));
    assert!(!desktop.last_left_button);
    assert!(!desktop.needs_redraw);
    assert_eq!(desktop.saved_pixels, [[0u32; 11]; 19]);
    let mut expected = Graphics::new(800, 600, 3200);
    Desktop::redraw(&mut expected, &wm);
    assert!(equal(&graphics, &expected));
}

#[test]
fn pointer_alone_draws_nothing() {
    let (_, mut wm) = desk();
    let mut desktop = Desktop::new();
    desktop.needs_redraw = false;
    desktop.pointer(&mut wm, Some((10, 300)), false);
    assert!(!desktop.needs_redraw);
    assert_eq!(desktop.last_cursor_pos, (10, 300));
    desktop.pointer(&mut wm, Some((10, 300)), true);
    assert!(desktop.needs_redraw);
    assert!(desktop.last_left_button);
    assert_eq!(wm.get_focused(), Some(1));
}

#[test]
fn windows_are_checked_before_they_are_managed() {
    assert!(fits("Terminal"));
    assert!(fits(""));
    let window = Window::new(100, 100, 400, 250, "Terminal");
    assert!(is_manageable(&window));
    assert!(is_manageable(&Window::new(0x0800_0000, 0x0800_0000, 75, 0, "")));
    assert!(!is_manageable(&Window::new(100, 100, 74, 250, "narrow")));
    assert!(!is_manageable(&Window::new(0x0800_0001, 100, 400, 250, "far right")));
    assert!(!is_manageable(&Window::new(100, 0x0800_0001, 400, 250, "far down")));
    assert!(!is_manageable(&Window::new(100, 100, 0x0800_0001, 250, "wide")));
    assert!(!is_manageable(&Window::new(100, 100, 400, 0x0800_0001, "tall")));
}

fn only(result: SyscallResult) -> SyscallOutcome {
    SyscallOutcome { result, action: SyscallAction::Nothing }
}

#[test]
fn calls_that_are_not_there_fail() {
    for num in [1u64, 2, 9, 10, 11, 20, 22, 23, 31, 4, 51, u64::MAX] {
        assert_eq!(handle_syscall(num, 1, 0x2000, 3, 4, 5, 6), only(SyscallResult::err(ENOSYS)));
    }
}

#[test]
fn exit_halts_with_the_low_half_of_the_code() {
    let outcome = handle_syscall(0, 0x1_0000_0007, 0, 0, 0, 0, 0);
    assert_eq!(outcome.action, SyscallAction::Halt { code: 7 });
    assert_eq!(outcome.result, SyscallResult::ok(0));
}

#[test]
fn process_id_is_one() {
    assert_eq!(handle_syscall(3, 9, 9, 9, 9, 9, 9), only(SyscallResult::ok(1)));
}

#[test]
fn write_goes_to_the_two_output_descriptors_only() {
    for fd in [1u64, 2, 0x5_0000_0001] {
        let outcome = handle_syscall(21, fd, 0x2000, 11, 0, 0, 0);
        assert_eq!(outcome.result, SyscallResult::ok(11));
        assert_eq!(
            outcome.action,
            SyscallAction::WriteBytes { address: 0x2000, count: 11, labelled: false }
        );
    }
    for fd in [0u64, 3, u64::MAX] {
        assert_eq!(handle_syscall(21, fd, 0x2000, 11, 0, 0, 0), only(SyscallResult::err(EBADF)));
    }
    // The descriptor is looked at before the address.
    assert_eq!(handle_syscall(21, 0, 0, 11, 0, 0, 0), only(SyscallResult::err(EBADF)));
    for address in [0u64, 0xFFF, 0xFFFF_8000_0000_0000, u64::MAX] {
        assert_eq!(handle_syscall(21, 1, address, 11, 0, 0, 0), only(SyscallResult::err(EINVAL)));
    }
    let edge = handle_syscall(21, 2, 0xFFFF_7FFF_FFFF_FFFF, u64::MAX, 0, 0, 0);
    assert_eq!(edge.result, SyscallResult::ok(-1));
    assert_eq!(handle_syscall(21, 2, 0x1000, 1 << 63, 0, 0, 0).result, SyscallResult::ok(i64::MIN));
}

#[test]
fn print_is_labelled() {
    let outcome = handle_syscall(30, 0x4000, 19, 0, 0, 0, 0);
    assert_eq!(outcome.result, SyscallResult::ok(19));
    assert_eq!(
        outcome.action,
        SyscallAction::WriteBytes { address: 0x4000, count: 19, labelled: true }
    );
    assert_eq!(handle_syscall(30, 0xFFF, 19, 0, 0, 0, 0), only(SyscallResult::err(EINVAL)));
}

#[test]
fn time_is_the_tick_counter() {
    assert_eq!(handle_syscall(40, 0, 0, 0, 0, 0, 1234), only(SyscallResult::ok(1234)));
    assert_eq!(handle_syscall(40, 0, 0, 0, 0, 0, u64::MAX), only(SyscallResult::ok(-1)));
}

#[test]
fn sleep_counts_ten_milliseconds_to_the_tick() {
    let outcome = handle_syscall(41, 1000, 0, 0, 0, 0, 50);
    assert_eq!(outcome.result, SyscallResult::ok(0));
    assert_eq!(outcome.action, SyscallAction::SleepUntil { until: 150 });
    assert_eq!(sys_sleep(9, 50).action, SyscallAction::SleepUntil { until: 50 });
    assert_eq!(sys_sleep(10, 50).action, SyscallAction::SleepUntil { until: 51 });
    assert_eq!(sys_sleep(10, u64::MAX).action, SyscallAction::SleepUntil { until: 0 });
    // The product is cut to 64 bits before it is divided.
    let cut = (u64::MAX.wrapping_mul(100)) / 1000;
    assert_eq!(sys_sleep(u64::MAX, 0).action, SyscallAction::SleepUntil { until: cut });
}

#[test]
fn system_info_counts_uptime_in_milliseconds() {
    let outcome = handle_syscall(50, 0x9000, 0, 0, 0, 0, 250);
    assert_eq!(outcome.result, SyscallResult::ok(0));
    assert_eq!(
        outcome.action,
        SyscallAction::StoreInfo {
            address: 0x9000,
            info: SystemInfo {
                total_memory: 134_217_728,
                free_memory: 67_108_864,
                uptime_ms: 2500,
                process_count: 1,
            },
        }
    );
    assert_eq!(handle_syscall(50, 0, 0, 0, 0, 0, 250), only(SyscallResult::err(EINVAL)));
}

#[test]
fn entry_hands_back_the_value() {
    let (value, outcome) = syscall_handler_wrapper(3, 0, 0, 0, 0, 0, 0);
    assert_eq!(value, 1);
    assert_eq!(outcome, only(SyscallResult::ok(1)));
    let (value, outcome) = syscall_handler_wrapper(99, 0, 0, 0, 0, 0, 0);
    assert_eq!(value, ENOSYS);
    assert!(outcome.result.error);
}

#[test]
fn system_calls_are_switched_on_by_four_writes() {
    let writes = init(0x0D01, 0xFFFF_FFFF_8010_0000);
    assert_eq!(
        writes,
        [
            MsrWrite { msr: IA32_EFER, value: 0x0D01 },
            MsrWrite { msr: IA32_STAR, value: 0x001B_0008_0000_0000 },
            MsrWrite { msr: IA32_LSTAR, value: 0xFFFF_FFFF_8010_0000 },
            MsrWrite { msr: IA32_FMASK, value: 0x200 },
        ]
    );
    assert_eq!(init(0x0D00, 0)[0].value, 0x0D01);
    assert_eq!((IA32_EFER, IA32_STAR, IA32_LSTAR, IA32_FMASK), (0xC0000080, 0xC0000081, 0xC0000082, 0xC0000084));
}

#[test]
fn stack_pointer_is_sound_in_its_range() {
    assert!(handoff_ok(0x36d76289));
    assert!(!handoff_ok(0x2BADB002));
    assert_eq!(stack_state(0), StackState::Null);
    assert_eq!(stack_state(4), StackState::TooLow);
    assert_eq!(stack_state(0x6FFFC), StackState::TooLow);
    assert_eq!(stack_state(0x70000), StackState::Sound);
    assert_eq!(stack_state(0x7FD54), StackState::Sound);
    assert_eq!(stack_state(0x7FD55), StackState::Unaligned);
    assert_eq!(stack_state(0x100000), StackState::Sound);
    assert_eq!(stack_state(0x100001), StackState::TooHigh);
    assert_eq!(stack_state(0x100004), StackState::TooHigh);
    assert!(StackState::Sound.is_valid());
    assert!(!StackState::Unaligned.is_valid());
    assert_eq!(StackState::Sound.label(), " OK");
    assert_eq!(StackState::Null.label(), " **NULL**");
    assert_eq!(StackState::TooLow.label(), " **TOO_LOW**");
    assert_eq!(StackState::TooHigh.label(), " **TOO_HIGH**");
    assert_eq!(StackState::Unaligned.label(), " **UNALIGNED**");
    assert_eq!(check_stack_in_main_loop(1, 0), None);
    assert_eq!(check_stack_in_main_loop(10_000_000, 0), Some(StackState::Null));
    assert_eq!(check_stack_in_main_loop(0, 0x7FD54), Some(StackState::Sound));
    assert_eq!(check_stack_in_main_loop(20_000_001, 0), None);
}

#[test]
fn idle_loop_reports_each_second_once() {
    let mut idle = MainLoop::new();
    assert_eq!(idle.step(0), LoopReport { uptime: None, check_stack: false });
    assert_eq!(idle.step(99), LoopReport { uptime: None, check_stack: false });
    assert_eq!(idle.step(100), LoopReport { uptime: Some((1, 100)), check_stack: false });
    assert_eq!(idle.step(150), LoopReport { uptime: None, check_stack: false });
    assert_eq!(idle.step(731), LoopReport { uptime: Some((7, 731)), check_stack: false });
    assert_eq!(idle, MainLoop { last_second: 7, loop_counter: 5 });
    let mut idle = MainLoop { last_second: 7, loop_counter: 9_999_999 };
    assert_eq!(idle.step(731), LoopReport { uptime: None, check_stack: true });
    let mut idle = MainLoop { last_second: 0, loop_counter: u32::MAX };
    assert_eq!(idle.step(0), LoopReport { uptime: None, check_stack: true });
    assert_eq!(idle.loop_counter, 0);
}
