use oxideos::keyboard::{
    keyboard_data_pending, scancode_to_ascii_shift_table, scancode_to_ascii_table,
    update_keyboard_leds, ArrowKey, KeyEvent, KeyboardState,
};
use oxideos::interrupts::{normalize, CpuState, Dispatcher, GeneralRegisters};
use oxideos::pic::PortWrite;
use oxideos::text_editor::{TextEditor, MAX_LINES, MAX_LINE_LENGTH, TEXT_SIZE};
use oxideos::timer;

fn press(kb: &mut KeyboardState, codes: &[u8]) -> Vec<KeyEvent> {
    codes.iter().map(|c| kb.process_scancode(*c)).collect()
}

fn text_of(editor: &TextEditor) -> String {
    let bytes = editor.get_text();
    let end = bytes.iter().position(|b| *b == 0).unwrap_or(bytes.len());
    String::from_utf8(bytes[..end].to_vec()).unwrap()
}

fn type_str(editor: &mut TextEditor, s: &str) {
    for b in s.bytes() {
        editor.input_char(b);
    }
}

#[test]
fn scancode_tables_hold_the_layout() {
    let plain = scancode_to_ascii_table();
    let shifted = scancode_to_ascii_shift_table();
    assert_eq!(&plain[0x02..0x0E], b"1234567890-=");
    assert_eq!(&shifted[0x02..0x0E], b"!@#$%^&*()_+");
    assert_eq!(&plain[0x10..0x1C], b"qwertyuiop[]");
    assert_eq!(&shifted[0x10..0x1C], b"QWERTYUIOP{}");
    assert_eq!(&plain[0x1E..0x2A], b"asdfghjkl;'`");
    assert_eq!(&shifted[0x1E..0x2A], b"ASDFGHJKL:\"~");
    assert_eq!(&plain[0x2B..0x36], b"\\zxcvbnm,./");
    assert_eq!(&shifted[0x2B..0x36], b"|ZXCVBNM<>?");
    assert_eq!(plain[0x37], b'*');
    assert_eq!(plain[0x39], b' ');
    assert_eq!(&plain[0x47..0x54], b"789-456+1230.");
    assert_eq!(&shifted[0x47..0x54], b"789-456+1230.");
    for sc in [0x00, 0x01, 0x0E, 0x0F, 0x1C, 0x1D, 0x2A, 0x36, 0x38, 0x3A, 0x3B, 0x44, 0x45, 0x46, 0x54, 0x7F] {
        assert_eq!(plain[sc], 0);
        assert_eq!(shifted[sc], 0);
    }
}

#[test]
fn typing_fills_the_line() {
    let mut kb = KeyboardState::new();
    assert_eq!(
        press(&mut kb, &[0x23, 0xA3, 0x17, 0x97]),
        vec![KeyEvent::Char(b'h'), KeyEvent::Nothing, KeyEvent::Char(b'i'), KeyEvent::Nothing]
    );
    assert_eq!(kb.get_buffer(), b"hi");
    assert_eq!(press(&mut kb, &[0x0E]), vec![KeyEvent::Backspace]);
    assert_eq!(kb.get_buffer(), b"h");
    assert_eq!(press(&mut kb, &[0x1C]), vec![KeyEvent::Enter]);
    assert_eq!(kb.get_buffer(), b"");
    assert_eq!(kb.last_line(), b"h");
    assert_eq!(press(&mut kb, &[0x0E, 0x01, 0x0F, 0x3B]), vec![
        KeyEvent::Backspace, KeyEvent::Escape, KeyEvent::Tab, KeyEvent::Nothing
    ]);
    kb.add_to_buffer(b'x');
    assert_eq!(kb.get_buffer(), b"x");
    kb.clear_buffer();
    assert_eq!(kb.get_buffer(), b"");
    assert_eq!(kb.last_line(), b"h");
}

#[test]
fn line_buffer_is_bounded() {
    let mut kb = KeyboardState::new();
    for _ in 0..300 {
        assert_eq!(kb.process_scancode(0x1E), KeyEvent::Char(b'a'));
    }
    assert_eq!(kb.get_buffer().len(), 255);
    kb.process_scancode(0x1C);
    assert_eq!(kb.last_line().len(), 255);
    assert_eq!(kb.get_buffer().len(), 0);
}

#[test]
fn modifiers_change_the_character() {
    let mut kb = KeyboardState::new();
    assert_eq!(press(&mut kb, &[0x2A, 0x1E, 0x02, 0xAA, 0x1E]), vec![
        KeyEvent::Nothing, KeyEvent::Char(b'A'), KeyEvent::Char(b'!'), KeyEvent::Nothing,
        KeyEvent::Char(b'a')
    ]);
    assert!(!kb.is_shift_pressed());
    kb.process_scancode(0x36);
    assert!(kb.is_shift_pressed());
    kb.process_scancode(0xB6);
    assert_eq!(press(&mut kb, &[0x3A]), vec![KeyEvent::Leds(0x06)]);
    assert!(kb.is_caps_lock_on());
    assert_eq!(press(&mut kb, &[0xBA, 0x1E, 0x02, 0x2A, 0x1E, 0xAA]), vec![
        KeyEvent::Nothing, KeyEvent::Char(b'A'), KeyEvent::Char(b'1'), KeyEvent::Nothing,
        KeyEvent::Char(b'a'), KeyEvent::Nothing
    ]);
    assert_eq!(press(&mut kb, &[0x3A, 0x45, 0x46, 0x46]), vec![
        KeyEvent::Leds(0x02), KeyEvent::Leds(0x00), KeyEvent::Leds(0x01), KeyEvent::Leds(0x00)
    ]);
    assert_eq!(kb.led_state(), 0);
    assert_eq!(press(&mut kb, &[0x1D, 0x2E, 0x1E, 0x02, 0x9D, 0x2E]), vec![
        KeyEvent::Nothing, KeyEvent::Char(3), KeyEvent::Char(1), KeyEvent::Char(b'1'),
        KeyEvent::Nothing, KeyEvent::Char(b'c')
    ]);
    assert!(!kb.is_ctrl_pressed());
    kb.process_scancode(0x38);
    assert!(kb.is_alt_pressed());
    kb.process_scancode(0xB8);
    assert!(!kb.is_alt_pressed());
    assert_eq!(kb.scancode_to_ascii(0x80), None);
    assert_eq!(kb.scancode_to_ascii(0x1C), None);
    assert_eq!(kb.scancode_to_ascii(0x10), Some(b'q'));
}

#[test]
fn extended_codes_are_arrows() {
    let mut kb = KeyboardState::new();
    assert_eq!(press(&mut kb, &[0xE0, 0x48, 0xE0, 0xC8, 0xE0, 0x50, 0xE0, 0x4B, 0xE0, 0x4D]), vec![
        KeyEvent::Nothing, KeyEvent::Arrow(ArrowKey::Up), KeyEvent::Nothing, KeyEvent::Nothing,
        KeyEvent::Nothing, KeyEvent::Arrow(ArrowKey::Down), KeyEvent::Nothing,
        KeyEvent::Arrow(ArrowKey::Left), KeyEvent::Nothing, KeyEvent::Arrow(ArrowKey::Right)
    ]);
    assert_eq!(press(&mut kb, &[0x48, 0xE0, 0x1C, 0xE0, 0x35]), vec![
        KeyEvent::Char(b'8'), KeyEvent::Nothing, KeyEvent::Enter, KeyEvent::Nothing,
        KeyEvent::Nothing
    ]);
    assert_eq!(press(&mut kb, &[0xE0, 0x1D, 0x1E, 0xE0, 0x38]), vec![
        KeyEvent::Nothing, KeyEvent::Nothing, KeyEvent::Char(b'a'), KeyEvent::Nothing,
        KeyEvent::Nothing
    ]);
    assert!(!kb.is_ctrl_pressed());
    assert!(!kb.is_alt_pressed());
    assert!(keyboard_data_pending(0x01));
    assert!(!keyboard_data_pending(0x21));
    assert!(!keyboard_data_pending(0x00));
    assert_eq!(update_keyboard_leds(0x05), [0xED, 0x05]);
}

#[test]
fn editor_types_and_splits_lines() {
    let mut editor = TextEditor::new(10, 20, 400, 300, "Notes");
    assert_eq!(editor.title(), "Notes");
    assert!(editor.is_visible());
    assert_eq!(editor.line_count(), 1);
    type_str(&mut editor, "hello world");
    assert_eq!(editor.cursor(), (0, 11));
    assert_eq!(text_of(&editor), "hello world");
    for _ in 0..5 {
        editor.move_cursor_left();
    }
    editor.input_char(b'\n');
    assert_eq!(text_of(&editor), "hello \nworld");
    assert_eq!(editor.cursor(), (1, 0));
    assert_eq!(editor.line_count(), 2);
    editor.input_char(b'W');
    assert_eq!(editor.line(1).unwrap(), b"Wworld");
    editor.input_char(127);
    editor.input_char(8);
    assert_eq!(text_of(&editor), "hello world");
    assert_eq!(editor.cursor(), (0, 6));
    editor.input_char(b'\t');
    assert_eq!(text_of(&editor), "hello     world");
    assert_eq!(editor.cursor(), (0, 10));
    editor.input_char(b'\r');
    editor.input_char(0x1B);
    editor.input_char(200);
    assert_eq!(text_of(&editor), "hello     \nworld");
    assert!(editor.line(2).is_none());
    editor.set_visible(false);
    assert!(!editor.is_visible());
}

#[test]
fn editor_cursor_moves_through_the_text() {
    let mut editor = TextEditor::new(0, 0, 400, 300, "t");
    type_str(&mut editor, "abc\nde\nfghij");
    assert_eq!(editor.cursor(), (2, 5));
    editor.move_cursor_up();
    assert_eq!(editor.cursor(), (1, 2));
    editor.move_cursor_up();
    assert_eq!(editor.cursor(), (0, 2));
    editor.move_cursor_up();
    assert_eq!(editor.cursor(), (0, 2));
    editor.move_cursor_right();
    editor.move_cursor_right();
    assert_eq!(editor.cursor(), (1, 0));
    editor.move_cursor_left();
    assert_eq!(editor.cursor(), (0, 3));
    editor.move_cursor_down();
    editor.move_cursor_down();
    assert_eq!(editor.cursor(), (2, 2));
    editor.move_cursor_down();
    assert_eq!(editor.cursor(), (2, 2));
    for _ in 0..10 {
        editor.move_cursor_right();
    }
    assert_eq!(editor.cursor(), (2, 5));
    for _ in 0..20 {
        editor.move_cursor_left();
    }
    assert_eq!(editor.cursor(), (0, 0));
    editor.input_char(8);
    assert_eq!(text_of(&editor), "abc\nde\nfghij");
    assert!(editor.is_titlebar_clicked(0, 0));
    assert!(editor.is_titlebar_clicked(399, 29));
    assert!(!editor.is_titlebar_clicked(400, 29));
    assert!(!editor.is_titlebar_clicked(399, 30));
}

#[test]
fn editor_lines_are_bounded() {
    let mut editor = TextEditor::new(0, 0, 400, 300, "t");
    type_str(&mut editor, &"x".repeat(100));
    assert_eq!(editor.line(0).unwrap().len(), MAX_LINE_LENGTH);
    assert_eq!(editor.cursor(), (0, 80));
    for _ in 0..80 {
        editor.move_cursor_left();
    }
    editor.input_char(b'y');
    let line = editor.line(0).unwrap();
    assert_eq!(line.len(), 80);
    assert_eq!(&line[..3], b"yxx");
    editor.input_char(b'\n');
    assert_eq!(editor.line(0).unwrap(), b"y");
    assert_eq!(editor.line(1).unwrap().len(), 79);
    type_str(&mut editor, "ab");
    editor.move_cursor_left();
    editor.move_cursor_left();
    editor.input_char(8);
    assert_eq!(editor.line_count(), 1);
    assert_eq!(editor.cursor(), (0, 1));
    let line = editor.line(0).unwrap();
    assert_eq!(line.len(), 80);
    assert_eq!(&line[..4], b"yabx");
}

#[test]
fn editor_holds_thirty_lines_and_scrolls() {
    let mut editor = TextEditor::new(0, 0, 400, 70 + 16 * 5, "t");
    for i in 0..40 {
        editor.input_char(b'a' + (i % 26) as u8);
        editor.input_char(b'\n');
    }
    assert_eq!(editor.line_count(), MAX_LINES);
    assert_eq!(editor.cursor(), (29, 11));
    assert_eq!(editor.scroll_offset(), 25);
    assert_eq!(editor.line(28).unwrap(), b"c");
    assert_eq!(editor.line(29).unwrap(), b"defghijklmn");
    for _ in 0..29 {
        editor.move_cursor_up();
    }
    assert_eq!(editor.scroll_offset(), 0);
    for _ in 0..6 {
        editor.move_cursor_down();
    }
    assert_eq!(editor.scroll_offset(), 2);
    let text = editor.get_text();
    assert_eq!(text.len(), TEXT_SIZE);
    assert_eq!(&text[..6], b"a\nb\nc\n");
    assert_eq!(text[29 * 2 + 11], 0);
}

#[test]
fn editor_text_is_cut_at_the_buffer() {
    let mut editor = TextEditor::new(0, 0, 400, 300, "t");
    for _ in 0..29 {
        type_str(&mut editor, &"z".repeat(80));
        editor.input_char(b'\n');
    }
    type_str(&mut editor, &"q".repeat(80));
    let text = editor.get_text();
    assert_eq!(text[80], b'\n');
    assert_eq!(text[81 * 29 - 1], b'\n');
    assert_eq!(text[81 * 29], b'q');
    assert_eq!(text[TEXT_SIZE - 1], b'q');
    assert!(text.iter().all(|b| *b != 0));
}

#[test]
fn timer_is_programmed_with_its_divisor() {
    assert_eq!(
        timer::init(100),
        vec![
            PortWrite { port: 0x43, value: 0x34 },
            PortWrite { port: 0x40, value: 0x9B },
            PortWrite { port: 0x40, value: 0x2E },
        ]
    );
    assert_eq!(timer::init(1)[1].value, 0xDE);
    assert_eq!(timer::init(1)[2].value, 0x34);
    assert_eq!(timer::init(2_000_000)[1].value, 0);
    let mut dispatcher = Dispatcher::new();
    let regs = GeneralRegisters {
        r15: 0, r14: 0, r13: 0, r12: 0, r11: 0, r10: 0, r9: 0, r8: 0, rdi: 0, rsi: 0, rbp: 0,
        rdx: 0, rcx: 0, rbx: 0, rax: 0,
    };
    let cpu = CpuState { rip: 0, cs: 0, rflags: 0, rsp: 0, ss: 0 };
    let mut frame = normalize(32, 0, &regs, &cpu);
    dispatcher.isr_common_handler(&mut frame, 0);
    dispatcher.handle_timer_interrupt();
    assert_eq!(timer::get_ticks(&dispatcher), 2);
}
