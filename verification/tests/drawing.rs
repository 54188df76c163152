use oxideos::colors::{dark_theme, ui, WHITE};
use oxideos::display_list::{run, run_command};
use oxideos::graphics::{DrawCommand, Graphics};
use oxideos::text_editor::{
    decimal_digits, draw_line_number, draw_number, draw_status, status_line, TextEditor,
};
use oxideos::widgets::{append_commands, Button, Window, SHADOW};
use oxideos::window_manager::WindowManager;

fn count(graphics: &Graphics, color: u32) -> usize {
    let (w, h) = graphics.get_dimensions();
    let mut n = 0;
    for y in 0..h {
        for x in 0..w {
            if graphics.get_pixel(x, y) == Some(color) {
                n += 1;
            }
        }
    }
    n
}

fn same(a: &Graphics, b: &Graphics) -> bool {
    let (w, h) = a.get_dimensions();
    (w, h) == b.get_dimensions()
        && (0..h).all(|y| (0..w).all(|x| a.get_pixel(x, y) == b.get_pixel(x, y)))
}

#[test]
fn later_commands_paint_over_earlier_ones() {
    let mut g = Graphics::new(10, 10, 40);
    let list = vec![
        DrawCommand::FillRect { x: 0, y: 0, width: 10, height: 10, color: 1 },
        DrawCommand::FillRect { x: 2, y: 2, width: 4, height: 4, color: 2 },
        DrawCommand::Frame { x: 2, y: 2, width: 4, height: 4, color: 3, thickness: 1 },
        DrawCommand::Line { x0: 0, y0: 9, x1: 9, y1: 9, color: 4 },
        DrawCommand::Glyph { x: 0, y: 0, ch: '?', color: 5 },
    ];
    run(&mut g, &list);
    assert_eq!(count(&g, 1), 100 - 16 - 10);
    assert_eq!(count(&g, 2), 4);
    assert_eq!(count(&g, 3), 12);
    assert_eq!(count(&g, 4), 10);
    assert_eq!(count(&g, 5), 0);
    let mut h = Graphics::new(10, 10, 40);
    for command in &list {
        run_command(&mut h, command);
    }
    assert!(same(&g, &h));
    run(&mut h, &Vec::new());
    assert!(same(&g, &h));
}

#[test]
fn button_draws_face_border_and_text() {
    let mut button = Button::new(10, 10, 60, 20, "so");
    let list = button.display_list();
    assert_eq!(list.len(), 3);
    match list[2] {
        DrawCommand::Text { x, y, text, color } => {
            assert_eq!((x, y, text, color), (10 + 30 - 9, 10 + 10 - 4, "so", dark_theme::TEXT_PRIMARY));
        }
        other => panic!("{:?}", other),
    }
    let mut g = Graphics::new(100, 50, 400);
    button.draw(&mut g);
    assert_eq!(g.get_pixel(10, 10), Some(dark_theme::BORDER));
    assert_eq!(g.get_pixel(69, 29), Some(dark_theme::BORDER));
    assert_eq!(g.get_pixel(11, 11), Some(dark_theme::BUTTON_PRIMARY));
    assert_eq!(g.get_pixel(70, 10), Some(0));
    assert_eq!(count(&g, dark_theme::TEXT_PRIMARY), 32 + 26);
    assert_eq!(count(&g, dark_theme::BORDER), 2 * 60 + 2 * 18);
    button.pressed = true;
    button.draw(&mut g);
    assert_eq!(g.get_pixel(11, 11), Some(dark_theme::BUTTON_PRESSED));
    let wide = Button::new(0, 0, 4, 4, "a long label");
    match wide.display_list()[2] {
        DrawCommand::Text { x, y, .. } => assert_eq!((x, y), (0, 0)),
        other => panic!("{:?}", other),
    }
}

#[test]
fn window_draws_body_and_close_button() {
    let mut window = Window::new(20, 20, 100, 60, "OS");
    let mut g = Graphics::new(200, 120, 800);
    window.draw(&mut g);
    assert_eq!(g.get_pixel(121, 81), Some(SHADOW));
    assert_eq!(g.get_pixel(122, 82), Some(SHADOW));
    assert_eq!(g.get_pixel(123, 83), Some(0));
    assert_eq!(g.get_pixel(20, 20), Some(dark_theme::BORDER));
    assert_eq!(g.get_pixel(21, 21), Some(ui::TITLEBAR_ACTIVE));
    assert_eq!(g.get_pixel(21, 50), Some(dark_theme::SURFACE));
    assert_eq!(g.get_pixel(96, 26), Some(dark_theme::ERROR));
    assert_eq!(g.get_pixel(100, 30), Some(WHITE));
    assert_eq!(g.get_pixel(105, 35), Some(WHITE));
    assert_eq!(g.get_pixel(100, 40), Some(WHITE));
    assert_eq!(count(&g, WHITE), 21);
    assert_eq!(count(&g, dark_theme::TEXT_PRIMARY), 58);
    assert_eq!(window.display_list().len(), 8);
    let mut only_button = Graphics::new(200, 120, 800);
    window.draw_close_button(&mut only_button);
    assert_eq!(count(&only_button, WHITE), 21);
    assert_eq!(count(&only_button, dark_theme::ERROR), 400 - 21);
    window.has_close_button = false;
    assert_eq!(window.display_list().len(), 5);
    window.close();
    assert!(window.display_list().is_empty());
    let mut untouched = Graphics::new(200, 120, 800);
    window.draw(&mut untouched);
    assert_eq!(count(&untouched, 0), 200 * 120);
}

#[test]
fn manager_draws_windows_bottom_to_top() {
    let mut wm = WindowManager::new();
    let a = wm.add_window(Window::new(10, 50, 100, 60, "a")).unwrap();
    let b = wm.add_window(Window::new(40, 70, 100, 60, "b")).unwrap();
    let mut g = Graphics::new(200, 200, 800);
    wm.draw_all(&mut g);
    assert_eq!(g.get_pixel(11, 51), Some(ui::TITLEBAR));
    assert_eq!(g.get_pixel(41, 71), Some(ui::TITLEBAR_ACTIVE));
    assert_eq!(g.get_pixel(60, 90), Some(ui::TITLEBAR_ACTIVE));
    assert_eq!(g.get_pixel(40, 70), Some(dark_theme::BORDER));
    assert_eq!(g.get_pixel(41, 105), Some(dark_theme::SURFACE));
    assert_eq!(wm.stack_list().len(), 2 * (5 + 3 + 2 + 2));
    wm.bring_to_front(a);
    let mut g = Graphics::new(200, 200, 800);
    wm.draw_all(&mut g);
    assert_eq!(g.get_pixel(60, 90), Some(dark_theme::SURFACE));
    assert_eq!(g.get_pixel(41, 71), Some(dark_theme::BUTTON_SECONDARY));
    assert_eq!(g.get_pixel(30, 71), Some(ui::TITLEBAR_ACTIVE));
    assert_eq!(g.get_pixel(11, 51), Some(ui::TITLEBAR_ACTIVE));
    wm.minimize_window(a);
    let mut g = Graphics::new(200, 200, 800);
    wm.draw_all(&mut g);
    assert_eq!(g.get_pixel(11, 51), Some(0));
    assert_eq!(g.get_pixel(41, 71), Some(ui::TITLEBAR_ACTIVE));
    assert_eq!(wm.stack_list().len(), 12);
    wm.maximize_window(b);
    assert_eq!(wm.stack_list().len(), 13);
    let w = *wm.get_window(b).unwrap();
    let mut one = Graphics::new(200, 200, 800);
    WindowManager::draw_window_with_controls(&mut one, &w, true, true);
    let mut all = Graphics::new(200, 200, 800);
    wm.draw_all(&mut all);
    assert!(same(&one, &all));
    assert_eq!(WindowManager::maximize_button_list(&w, false).len(), 2);
    assert_eq!(WindowManager::minimize_button_list(&w).len(), 2);
}

#[test]
fn task_bar_shows_one_item_per_window() {
    let mut wm = WindowManager::new();
    wm.set_screen_dimensions(600, 400);
    let mut g = Graphics::new(600, 400, 2400);
    wm.draw_taskbar(&mut g);
    assert_eq!(g.get_pixel(0, 0), Some(dark_theme::SURFACE_VARIANT));
    assert_eq!(g.get_pixel(599, 38), Some(dark_theme::SURFACE_VARIANT));
    assert_eq!(g.get_pixel(599, 39), Some(dark_theme::BORDER));
    assert_eq!(g.get_pixel(0, 40), Some(0));
    assert_eq!(count(&g, dark_theme::ACCENT_PRIMARY), 32 + 32 + 26);
    assert_eq!(wm.taskbar_list().len(), 3);
    let a = wm.add_window(Window::new(10, 50, 100, 60, "a")).unwrap();
    let _b = wm.add_window(Window::new(40, 70, 100, 60, "b")).unwrap();
    wm.minimize_window(a);
    assert_eq!(wm.taskbar_list().len(), 9);
    let mut g = Graphics::new(600, 400, 2400);
    wm.draw_taskbar(&mut g);
    assert_eq!(g.get_pixel(101, 6), Some(dark_theme::BUTTON_SECONDARY));
    assert_eq!(g.get_pixel(100, 5), Some(dark_theme::BORDER));
    assert_eq!(g.get_pixel(256, 6), Some(dark_theme::ACCENT_PRIMARY));
    assert_eq!(g.get_pixel(251, 6), Some(dark_theme::SURFACE_VARIANT));
    let w = *wm.get_window(a).unwrap();
    let item = WindowManager::taskbar_item_list(&w, 100, false, false);
    match item[0] {
        DrawCommand::FillRect { color, .. } => assert_eq!(color, dark_theme::SURFACE),
        other => panic!("{:?}", other),
    }
}

#[test]
fn numbers_are_drawn_digit_by_digit() {
    assert_eq!(decimal_digits(0), b"0");
    assert_eq!(decimal_digits(7), b"7");
    assert_eq!(decimal_digits(30), b"30");
    assert_eq!(decimal_digits(405), b"405");
    assert_eq!(decimal_digits(9999), b"9999");
    assert_eq!(status_line(12, 3), b"Ln 12, Col 3");
    let mut g = Graphics::new(100, 20, 400);
    assert_eq!(draw_number(&mut g, 5, 5, 1234, 7), 5 + 36);
    assert_eq!(draw_number(&mut g, 5, 5, 0, 7), 14);
    draw_line_number(&mut g, 5, 5, 17, 7);
    draw_status(&mut g, 5, 5, 1, 1, 1, 7);
    assert_eq!(count(&g, 7), 32);
    assert_eq!(g.get_pixel(5 + 9 * 7 + 2, 5), Some(7));
    let mut list = vec![DrawCommand::Glyph { x: 0, y: 0, ch: 'O', color: 1 }];
    append_commands(&mut list, &vec![DrawCommand::Glyph { x: 9, y: 0, ch: 'S', color: 2 }]);
    assert_eq!(list.len(), 2);
}

#[test]
fn editor_draws_text_cursor_and_status() {
    let mut editor = TextEditor::new(10, 10, 300, 70 + 16 * 4, "SOS");
    for b in "so so\n\nS".bytes() {
        editor.input_char(b);
    }
    let list = editor.display_list();
    let glyphs: Vec<(u64, u64, char)> = list
        .iter()
        .filter_map(|c| match c {
            DrawCommand::Glyph { x, y, ch, .. } => Some((*x, *y, *ch)),
            _ => None,
        })
        .collect();
    let row = |k: u64| 10 + 40 + 16 * k;
    assert_eq!(
        &glyphs[..8],
        &[
            (15, row(0), '1'), (20, row(0), 's'), (29, row(0), 'o'), (47, row(0), 's'),
            (56, row(0), 'o'), (15, row(1), '2'), (15, row(2), '3'), (20, row(2), 'S'),
        ]
    );
    let text: String = glyphs[8..].iter().map(|g| g.2).collect();
    assert_eq!(text, "Ln 3, Col 2");
    assert_eq!(glyphs[8], (20, 10 + 134 - 20 + 6, 'L'));
    assert_eq!(list.len(), 6 + 8 + 1 + 1 + 11);
    let mut g = Graphics::new(400, 200, 1600);
    editor.draw(&mut g);
    assert_eq!(g.get_pixel(10 + 10 + 9, row(2)), Some(dark_theme::ACCENT_PRIMARY));
    assert_eq!(g.get_pixel(10 + 10 + 9, row(2) + 15), Some(dark_theme::ACCENT_PRIMARY));
    assert_eq!(g.get_pixel(10 + 10 + 11, row(2)), Some(dark_theme::BACKGROUND));
    assert_eq!(g.get_pixel(11, 41), Some(dark_theme::BACKGROUND));
    assert_eq!(g.get_pixel(11, 10 + 134 - 19), Some(dark_theme::SURFACE_VARIANT));
    assert_eq!(count(&g, WHITE), 26 + 32 + 26);
    let mut parts = Graphics::new(400, 200, 1600);
    editor.draw_text(&mut parts);
    editor.draw_cursor(&mut parts);
    editor.draw_status_bar(&mut parts);
    assert_eq!(count(&parts, dark_theme::TEXT_PRIMARY), count(&g, dark_theme::TEXT_PRIMARY));
    assert_eq!(count(&parts, dark_theme::TEXT_SECONDARY), 32);
    editor.set_visible(false);
    assert!(editor.display_list().is_empty());
}

#[test]
fn editor_draws_only_what_is_shown() {
    let mut editor = TextEditor::new(0, 0, 300, 70 + 16 * 2, "t");
    for _ in 0..5 {
        editor.input_char(b'o');
        editor.input_char(b'\n');
    }
    assert_eq!(editor.scroll_offset(), 4);
    let first_row: Vec<char> = editor
        .display_list()
        .iter()
        .filter_map(|c| match c {
            DrawCommand::Glyph { y: 40, ch, .. } => Some(*ch),
            _ => None,
        })
        .collect();
    assert_eq!(first_row, vec!['5', 'o']);
    for _ in 0..5 {
        editor.move_cursor_up();
    }
    assert_eq!(editor.scroll_offset(), 0);
    let rects = editor
        .display_list()
        .iter()
        .filter(|c| matches!(c, DrawCommand::FillRect { width: 2, .. }))
        .count();
    assert_eq!(rects, 1);
    for _ in 0..3 {
        editor.move_cursor_down();
    }
    assert_eq!(editor.scroll_offset(), 2);
    editor.move_cursor_up();
    editor.move_cursor_up();
    assert_eq!(editor.scroll_offset(), 1);
    let mut low = TextEditor::new(0, 0, 300, 70 + 15, "t");
    low.input_char(b'o');
    let list = low.display_list();
    let rects = list.iter().filter(|c| matches!(c, DrawCommand::FillRect { width: 2, .. })).count();
    assert_eq!(rects, 0);
    let glyphs = list.iter().filter(|c| matches!(c, DrawCommand::Glyph { .. })).count();
    assert_eq!(glyphs, 11);
}
