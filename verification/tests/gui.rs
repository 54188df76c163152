use oxideos::mouse::MouseStep;
use oxideos::mouse::{
    command_acknowledged, controller_ready, data_ready, mouse_config, self_test_passed,
    BusyWait, WaitStep,
};
use oxideos::colors::{
    blend_colors, darken, get_alpha, get_blue, get_green, get_red, lighten, rgb, rgba, BLACK,
    ORANGE, WHITE,
};
use oxideos::colors::{dark_theme, light_theme, retro_theme, ui};
use oxideos::keyboard::{arrow_key, has_data, read_scancode_nonblock, ArrowKey};
use oxideos::mouse::{
    get_mouse_position, is_mouse_button_pressed, mouse_data_pending, signed, MouseButton,
    MouseCursor, PS2Mouse,
};
use oxideos::scancode::{decode_scancode, DecodedKey};
use oxideos::syscall::{Syscall, SyscallResult, SystemInfo, EINVAL, ENOSYS};
use oxideos::widgets::{Button, Window};

#[test]
fn colors_pack_and_unpack() {
    assert_eq!(rgba(0x12, 0x34, 0x56, 0x78), 0x7812_3456);
    assert_eq!(rgb(0xFF, 0xA5, 0x00), ORANGE);
    assert_eq!(rgb(0, 0, 0), BLACK);
    assert_eq!(rgb(255, 255, 255), WHITE);
    assert_eq!(get_red(0x7812_3456), 0x12);
    assert_eq!(get_green(0x7812_3456), 0x34);
    assert_eq!(get_blue(0x7812_3456), 0x56);
    assert_eq!(get_alpha(0x7812_3456), 0x78);
    assert_eq!(dark_theme::BUTTON_PRIMARY, 0xFF00_7ACC);
    assert_eq!(light_theme::BACKGROUND, 0xFFFA_FAFA);
    assert_eq!(retro_theme::TEXT, 0xFF00_FF00);
    assert_eq!(ui::TITLEBAR_ACTIVE, 0xFF00_7ACC);
}

#[test]
fn blend_weighs_by_foreground_alpha() {
    assert_eq!(blend_colors(0xFF11_2233, 0xFF44_5566), 0xFF11_2233);
    assert_eq!(blend_colors(0x0011_2233, 0x8044_5566), 0xFF44_5566);
    assert_eq!(blend_colors(0x80FF_0000, 0xFF00_00FF), 0xFF80_007F);
    assert_eq!(blend_colors(0x40C8_6400, 0xFF00_64C8), rgb(50, 100, 149));
}

#[test]
fn darken_and_lighten_scale_the_channels() {
    assert_eq!(darken(0x80C8_6432, 50), 0x8064_3219);
    assert_eq!(darken(0x80C8_6432, 0), 0x80C8_6432);
    assert_eq!(darken(0x80C8_6432, 100), 0x8000_0000);
    assert_eq!(darken(0x80C8_6432, 200), 0x8000_0000);
    assert_eq!(darken(0xFFFF_FFFF, 33), rgb(170, 170, 170));
    assert_eq!(lighten(0x8000_6432, 50), rgba(127, 177, 152, 0x80));
    assert_eq!(lighten(0x8000_6432, 0), 0x8000_6432);
    assert_eq!(lighten(0x8000_6432, 100), 0x80FF_FFFF);
    assert_eq!(lighten(0x8000_6432, 255), 0x80FF_FFFF);
}

#[test]
fn scancodes_decode_to_keys() {
    assert_eq!(decode_scancode(0x1C), DecodedKey::Enter);
    assert_eq!(decode_scancode(0x0E), DecodedKey::Backspace);
    assert_eq!(decode_scancode(0x39), DecodedKey::Ascii(b' '));
    assert_eq!(decode_scancode(0x9C), DecodedKey::Nothing);
    assert_eq!(decode_scancode(0x80), DecodedKey::Nothing);
    assert_eq!(decode_scancode(0x00), DecodedKey::Nothing);
    assert_eq!(decode_scancode(0x2A), DecodedKey::Nothing);
    let keys: &[(u8, &[u8])] = &[
        (0x02, b"1234567890-="),
        (0x10, b"qwertyuiop[]"),
        (0x1E, b"asdfghjkl;'`"),
        (0x2B, b"\\zxcvbnm,./"),
    ];
    for (first, chars) in keys {
        for (i, ch) in chars.iter().enumerate() {
            assert_eq!(decode_scancode(first + i as u8), DecodedKey::Ascii(*ch));
        }
    }
}

#[test]
fn syscall_numbers_map_to_calls() {
    assert_eq!(Syscall::from(0), Syscall::Exit);
    assert_eq!(Syscall::from(3), Syscall::GetPid);
    assert_eq!(Syscall::from(4), Syscall::Invalid);
    assert_eq!(Syscall::from(21), Syscall::Write);
    assert_eq!(Syscall::from(50), Syscall::GetSystemInfo);
    assert_eq!(Syscall::from(u64::MAX), Syscall::Invalid);
    assert_eq!(Syscall::Invalid.number(), 0xFFFF_FFFF);
    for n in 0..64 {
        let call = Syscall::from(n);
        if call != Syscall::Invalid {
            assert_eq!(call.number(), n);
        }
    }
    assert_eq!(SyscallResult::ok(7), SyscallResult { value: 7, error: false });
    assert_eq!(SyscallResult::err(EINVAL), SyscallResult { value: -1, error: true });
    assert_eq!(ENOSYS, -2);
    let info = SystemInfo { total_memory: 1, free_memory: 2, uptime_ms: 3, process_count: 4 };
    assert_eq!(info.process_count, 4);
}

#[test]
fn cursor_stays_on_the_screen() {
    let mut cursor = MouseCursor::new();
    assert_eq!(cursor.get_position(), (400, 300));
    assert!(cursor.visible);
    assert_eq!(cursor.color, 0xFFFF_FFFF);
    cursor.update(10, 20, 800, 600);
    assert_eq!(cursor.get_position(), (410, 280));
    cursor.update(-128, 127, 800, 600);
    assert_eq!(cursor.get_position(), (282, 153));
    cursor.update(127, -128, 300, 200);
    assert_eq!(cursor.get_position(), (299, 199));
    cursor.x = 5;
    cursor.y = 5;
    cursor.update(-10, 10, 300, 200);
    assert_eq!(cursor.get_position(), (0, 0));
    cursor.update(1, 1, 0, 0);
    assert_eq!(cursor.get_position(), (-1, -1));
    assert_eq!(get_mouse_position(Some(&cursor)), Some((-1, -1)));
    assert_eq!(get_mouse_position(None), None);
}

#[test]
fn mouse_packets_move_the_cursor() {
    let mut mouse = PS2Mouse::new();
    let mut cursor = MouseCursor::new();
    mouse.handle_interrupt(0x01, &mut cursor, 800, 600);
    assert_eq!(mouse.packet_index, 0);
    assert!(!mouse.is_left_clicked());
    mouse.handle_interrupt(0x09, &mut cursor, 800, 600);
    mouse.handle_interrupt(0x05, &mut cursor, 800, 600);
    assert_eq!(cursor.get_position(), (400, 300));
    assert_eq!(mouse.packet_index, 2);
    mouse.handle_interrupt(0xFE, &mut cursor, 800, 600);
    assert_eq!(cursor.get_position(), (405, 302));
    assert!(mouse.is_left_clicked());
    assert!(!mouse.is_right_clicked());
    assert!(!mouse.middle_button);
    assert_eq!(mouse.packet_index, 0);
    for byte in [0x0E, 0x80, 0x7F] {
        mouse.handle_interrupt(byte, &mut cursor, 800, 600);
    }
    assert_eq!(cursor.get_position(), (277, 175));
    assert!(!mouse.is_left_clicked());
    assert!(mouse.is_right_clicked());
    assert!(mouse.middle_button);
    assert!(is_mouse_button_pressed(Some(&mouse), MouseButton::Right));
    assert!(is_mouse_button_pressed(Some(&mouse), MouseButton::Middle));
    assert!(!is_mouse_button_pressed(Some(&mouse), MouseButton::Left));
    assert!(!is_mouse_button_pressed(None, MouseButton::Right));
    assert_eq!(signed(0x7F), 127);
    assert_eq!(signed(0x80), -128);
    assert_eq!(signed(0xFF), -1);
}

#[test]
fn controller_status_tells_mouse_from_keyboard() {
    assert!(mouse_data_pending(0x21));
    assert!(!mouse_data_pending(0x01));
    assert!(!mouse_data_pending(0x20));
    assert!(has_data(0x01));
    assert!(!has_data(0xFE));
    assert_eq!(read_scancode_nonblock(0x01, 0x1C), Some(0x1C));
    assert_eq!(read_scancode_nonblock(0x00, 0x1C), None);
    assert_eq!(arrow_key(0x48), Some(ArrowKey::Up));
    assert_eq!(arrow_key(0x50), Some(ArrowKey::Down));
    assert_eq!(arrow_key(0x4B), Some(ArrowKey::Left));
    assert_eq!(arrow_key(0x4D), Some(ArrowKey::Right));
    assert_eq!(arrow_key(0x1C), None);
}

#[test]
fn button_is_hit_inside_its_rectangle() {
    let button = Button::new(10, 20, 30, 40, "OK");
    assert_eq!(button.bg_color, dark_theme::BUTTON_PRIMARY);
    assert_eq!(button.fg_color, dark_theme::TEXT_PRIMARY);
    assert!(!button.pressed);
    assert_eq!(button.text, "OK");
    assert!(button.is_clicked(10, 20));
    assert!(button.is_clicked(39, 59));
    assert!(!button.is_clicked(40, 59));
    assert!(!button.is_clicked(39, 60));
    assert!(!button.is_clicked(9, 20));
    assert!(!button.is_clicked(10, 19));
}

#[test]
fn window_hit_tests() {
    let mut window = Window::new(100, 50, 300, 200, "Demo");
    assert!(window.visible);
    assert!(window.has_close_button);
    assert_eq!(window.bg_color, dark_theme::SURFACE);
    assert!(window.is_titlebar_clicked(100, 50));
    assert!(window.is_titlebar_clicked(399, 79));
    assert!(!window.is_titlebar_clicked(399, 80));
    assert!(!window.is_titlebar_clicked(400, 60));
    assert!(window.is_close_button_clicked(375, 55));
    assert!(window.is_close_button_clicked(394, 74));
    assert!(!window.is_close_button_clicked(395, 74));
    assert!(!window.is_close_button_clicked(374, 55));
    assert!(!window.is_close_button_clicked(380, 54));
    window.has_close_button = false;
    assert!(!window.is_close_button_clicked(380, 60));
    window.has_close_button = true;
    window.close();
    assert!(!window.visible);
    assert!(!window.is_close_button_clicked(380, 60));
    assert!(!window.is_titlebar_clicked(100, 50));
}

#[test]
fn handshake_gives_up_after_its_tries() {
    assert!(controller_ready(0x01));
    assert!(!controller_ready(0x02));
    assert!(data_ready(0x01));
    assert!(!data_ready(0x02));
    assert_eq!(mouse_config(0x00), 0x03);
    assert_eq!(mouse_config(0xFF), 0xDF);
    assert_eq!(mouse_config(0x20), 0x03);
    assert!(command_acknowledged(0xFA));
    assert!(!command_acknowledged(0xFE));
    assert!(self_test_passed(0xAA));
    assert!(!self_test_passed(0xFC));
    let mut wait = BusyWait::new(3);
    assert_eq!(wait.poll(false), WaitStep::Again);
    assert_eq!(wait.poll(false), WaitStep::Again);
    assert_eq!(wait.poll(false), WaitStep::GaveUp);
    assert_eq!(wait.poll(true), WaitStep::GaveUp);
    let mut wait = BusyWait::new(3);
    assert_eq!(wait.poll(false), WaitStep::Again);
    assert_eq!(wait.poll(true), WaitStep::Ready);
    assert_eq!(wait.remaining, 2);
    assert_eq!(BusyWait::new(0).poll(true), WaitStep::GaveUp);
    let mut looks = 0;
    let mut wait = BusyWait::new(10_000);
    while wait.poll(false) == WaitStep::Again {
        looks += 1;
    }
    assert_eq!(looks, 9_999);
}

#[test]
fn mouse_is_set_up_step_by_step() {
    assert_eq!(
        PS2Mouse::init_first(),
        [MouseStep::Command(0xA8), MouseStep::Command(0x20), MouseStep::Read]
    );
    assert_eq!(
        PS2Mouse::send_mouse_command(0xF4),
        [MouseStep::Command(0xD4), MouseStep::Data(0xF4), MouseStep::Read]
    );
    assert_eq!(
        PS2Mouse::send_reset_command(),
        [
            MouseStep::Command(0xD4),
            MouseStep::Data(0xFF),
            MouseStep::Read,
            MouseStep::Read,
            MouseStep::Read,
        ]
    );
    let steps = PS2Mouse::init(0x65);
    assert_eq!(steps[0], MouseStep::Command(0x60));
    assert_eq!(steps[1], MouseStep::Data(0x47));
    assert_eq!(steps[2..5], [MouseStep::Command(0x20), MouseStep::Read, MouseStep::Flush]);
    assert_eq!(steps[5..10], PS2Mouse::send_reset_command());
    assert_eq!(steps[10..13], PS2Mouse::send_mouse_command(0xF6));
    assert_eq!(steps[13..16], PS2Mouse::send_mouse_command(0xF4));
}

#[test]
fn new_mouse_has_heard_nothing() {
    let mouse = PS2Mouse::new();
    assert_eq!(mouse.packet_buffer, [0, 0, 0]);
    assert_eq!(mouse.packet_index, 0);
    assert!(!mouse.left_button && !mouse.right_button && !mouse.middle_button);
}
