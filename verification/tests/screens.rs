use oxideos::framebuffer_draw::{pixel_bytes, rgb565};
use oxideos::console::Console;
use oxideos::exception::{isr_common_handler, SavedRegs, SavedReturn};
use oxideos::fonts::{char_o, char_s, draw_char, draw_string};
use oxideos::graphics::Graphics;
use oxideos::interrupts::DescriptorTable;
use oxideos::isr::{debug_log_gpf_error_code, get_ticks, IsrAction, IsrState};
use oxideos::multiboot2_parser::{FramebufferTag, MemoryMapTag, MultibootTag};
use oxideos::multiboot_parser::{find_framebuffer, parse_multiboot, read_u32, read_u64, Framebuffer};
use oxideos::pic::PortWrite;
use oxideos::vga::{clear_row, enable_cursor, set_cursor_pos, vga_put_at, TextScreen};
use oxideos::vga_buffer::{hex_char, init, write_vga_fmt, VgaBuffer};

fn cell(screen: &TextScreen, x: usize, y: usize) -> (u8, u8) {
    (screen.char_at(x, y), screen.color_at(x, y))
}

fn row_text(screen: &TextScreen, y: usize, len: usize) -> String {
    (0..len).map(|x| screen.char_at(x, y) as char).collect()
}

#[test]
fn text_screen_cells_hold_character_and_colour() {
    let mut screen = TextScreen::new();
    vga_put_at(&mut screen, b'A', 0x1F, 3, 2);
    assert_eq!(screen.cells[2 * 80 + 3], 0x1F41);
    assert_eq!(cell(&screen, 3, 2), (b'A', 0x1F));
    assert_eq!(cell(&screen, 4, 2), (0, 0));
    clear_row(&mut screen, 2, 0x07);
    assert_eq!(cell(&screen, 3, 2), (b' ', 0x07));
    assert_eq!(cell(&screen, 79, 2), (b' ', 0x07));
    assert_eq!(cell(&screen, 0, 3), (0, 0));
    assert_eq!(cell(&screen, 79, 1), (0, 0));
    vga_put_at(&mut screen, b'z', 0x02, 79, 24);
    screen.scroll(0x04);
    assert_eq!(cell(&screen, 79, 23), (b'z', 0x02));
    assert_eq!(cell(&screen, 3, 1), (b' ', 0x07));
    assert_eq!(cell(&screen, 79, 24), (b' ', 0x04));
}

#[test]
fn cursor_registers_are_programmed() {
    assert_eq!(
        set_cursor_pos(0x1234),
        vec![
            PortWrite { port: 0x3D4, value: 0x0F },
            PortWrite { port: 0x3D5, value: 0x34 },
            PortWrite { port: 0x3D4, value: 0x0E },
            PortWrite { port: 0x3D5, value: 0x12 },
        ]
    );
    assert_eq!(
        enable_cursor(13, 15, 0xFF, 0xFF),
        vec![
            PortWrite { port: 0x3D4, value: 0x0A },
            PortWrite { port: 0x3D5, value: 0xCD },
            PortWrite { port: 0x3D4, value: 0x0B },
            PortWrite { port: 0x3D5, value: 0xEF },
        ]
    );
    assert_eq!(enable_cursor(0xFF, 0xFF, 0x00, 0x00)[1].value, 0x1F);
}

#[test]
fn console_writes_wraps_and_scrolls() {
    let mut console = Console::new(0x0F);
    console.clear();
    assert_eq!(console.cursor(), (0, 0));
    assert_eq!(cell(console.screen(), 5, 5), (b' ', 0x0F));
    console.write_str("hi\nyou");
    assert_eq!(row_text(console.screen(), 0, 3), "hi ");
    assert_eq!(row_text(console.screen(), 1, 3), "you");
    assert_eq!(console.cursor(), (3, 1));
    console.backspace();
    assert_eq!(console.cursor(), (2, 1));
    assert_eq!(row_text(console.screen(), 1, 3), "yo ");
    console.putc(b'\n');
    console.backspace();
    assert_eq!(console.cursor(), (0, 2));
    for _ in 0..80 {
        console.putc(b'x');
    }
    assert_eq!(console.cursor(), (0, 3));
    assert_eq!(row_text(console.screen(), 2, 80), "x".repeat(80));
    for _ in 0..22 {
        console.newline();
    }
    assert_eq!(console.cursor(), (0, 24));
    assert_eq!(row_text(console.screen(), 0, 3), "yo ");
    assert_eq!(row_text(console.screen(), 1, 2), "xx");
    console.set_color(0x2E);
    assert_eq!(console.color(), 0x2E);
    console.putc(b'q');
    console.newline();
    assert_eq!(cell(console.screen(), 0, 23), (b'q', 0x2E));
    assert_eq!(cell(console.screen(), 0, 24), (b' ', 0x2E));
    assert_eq!(row_text(console.screen(), 0, 2), "xx");
}

#[test]
fn console_tells_the_hardware_cursor_where_it_is() {
    let mut console = Console::new(0x07);
    console.putc(b'a');
    assert_eq!(console.take_port_writes(), set_cursor_pos(1));
    console.write_str("\n");
    let mut expected = set_cursor_pos(80);
    expected.extend(set_cursor_pos(80));
    assert_eq!(console.take_port_writes(), expected);
    console.enable_cursor(0xC0, 0xE0);
    console.sync_cursor();
    let mut expected = enable_cursor(13, 15, 0xC0, 0xE0);
    expected.extend(set_cursor_pos(80));
    assert_eq!(console.take_port_writes(), expected);
    assert!(console.take_port_writes().is_empty());
}

#[test]
fn vga_writer_wraps_before_it_writes() {
    let mut vga = VgaBuffer::new();
    init(&mut vga);
    assert_eq!(vga.position(), (0, 0));
    assert_eq!(cell(vga.screen(), 0, 0), (b' ', 0x0F));
    vga.write_string(&"a".repeat(80));
    assert_eq!(vga.position(), (0, 80));
    vga.write_byte(b'b');
    assert_eq!(vga.position(), (1, 1));
    assert_eq!(cell(vga.screen(), 0, 1), (b'b', 0x0F));
    vga.write_string("\n\ncd");
    assert_eq!(vga.position(), (3, 2));
    assert_eq!(row_text(vga.screen(), 3, 2), "cd");
    for _ in 0..21 {
        vga.write_byte(b'\n');
    }
    assert_eq!(vga.position(), (24, 0));
    assert_eq!(row_text(vga.screen(), 0, 1), "a");
    vga.write_byte(b'\n');
    assert_eq!(vga.position(), (24, 0));
    assert_eq!(row_text(vga.screen(), 0, 2), "b ");
    assert_eq!(row_text(vga.screen(), 2, 2), "cd");
    vga.clear();
    assert_eq!(vga.position(), (0, 0));
    assert_eq!(cell(vga.screen(), 2, 2), (b' ', 0x0F));
}

#[test]
fn vga_writer_formats_hex_and_characters() {
    let mut vga = VgaBuffer::new();
    vga.write_hex(0x1234_ABCD);
    assert_eq!(row_text(vga.screen(), 0, 10), "0x1234ABCD");
    vga.write_char_public('~');
    vga.write_char_public('é');
    assert_eq!(row_text(vga.screen(), 0, 12), "0x1234ABCD~?");
    assert_eq!(write_vga_fmt(&mut vga, "\nok 7"), Ok(()));
    assert_eq!(row_text(vga.screen(), 1, 4), "ok 7");
    vga.write_string("\n");
    vga.write_hex(0);
    vga.write_hex(0xFFFF_FFFF);
    assert_eq!(row_text(vga.screen(), 2, 20), "0x000000000xFFFFFFFF");
    assert_eq!(hex_char(9), b'9');
    assert_eq!(hex_char(10), b'A');
    assert_eq!(hex_char(15), b'F');
}

#[test]
fn old_dispatcher_counts_ticks_and_faults() {
    let mut state = IsrState::new();
    assert_eq!(state.isr_dispatch(32), IsrAction::Acknowledge { irq: 0 });
    assert_eq!(state.isr_dispatch(32), IsrAction::Acknowledge { irq: 0 });
    assert_eq!(state.isr_dispatch(33), IsrAction::Acknowledge { irq: 1 });
    assert_eq!(state.isr_dispatch(47), IsrAction::Acknowledge { irq: 15 });
    assert_eq!(get_ticks(&state), 2);
    for count in 0..5 {
        assert_eq!(state.isr_dispatch(13), IsrAction::GeneralProtection { count, halt: false });
    }
    assert_eq!(state.isr_dispatch(13), IsrAction::GeneralProtection { count: 5, halt: true });
    assert_eq!(state.isr_dispatch(8), IsrAction::DoubleFault);
    assert_eq!(state.isr_dispatch(48), IsrAction::Unknown);
    assert_eq!(state.isr_dispatch(0), IsrAction::Unknown);
    assert_eq!(state.debug_log_entry(0xDEAD_0001), 0);
    assert_eq!(state.debug_log_entry(0xDEAD_0002), 1);
    state.ticks = u32::MAX;
    state.isr_dispatch(32);
    assert_eq!(get_ticks(&state), 0);
    let decoded = debug_log_gpf_error_code(0x1B);
    assert_eq!((decoded.external, decoded.table, decoded.index), (true, DescriptorTable::Idt, 3));
}

#[test]
fn old_exception_handler_names_the_exception() {
    let regs = SavedRegs { eax: 1, ecx: 2, edx: 3, ebx: 4, esp_dummy: 5, ebp: 6, esi: 7, edi: 8 };
    let ret = SavedReturn { eip: 0x10_0000, cs: 8, eflags: 0x202 };
    let names = [
        (0, "Divide Error (INT 0)"),
        (6, "Invalid Opcode (INT 6)"),
        (8, "Double Fault (INT 8)"),
        (13, "General Protection Fault (INT 13)"),
        (14, "Page Fault (INT 14)"),
        (1, "Exception (other)"),
    ];
    for (int_no, name) in names {
        let summary = isr_common_handler(&regs, &ret, int_no, 0x10);
        assert_eq!(summary.description, name);
        assert_eq!(summary.int_no, int_no);
        assert_eq!(summary.err_code, 0x10);
        assert_eq!(summary.regs, regs);
        assert_eq!(summary.ret, ret);
    }
}

fn tag(typ: u32, size: u32, payload: &[u8]) -> Vec<u8> {
    let mut out = Vec::new();
    out.extend_from_slice(&typ.to_le_bytes());
    out.extend_from_slice(&size.to_le_bytes());
    out.extend_from_slice(payload);
    while out.len() % 8 != 0 {
        out.push(0);
    }
    out
}

fn block(tags: &[Vec<u8>]) -> Vec<u8> {
    let body: Vec<u8> = tags.iter().flatten().copied().collect();
    let mut out = Vec::new();
    out.extend_from_slice(&(8 + body.len() as u32).to_le_bytes());
    out.extend_from_slice(&0u32.to_le_bytes());
    out.extend_from_slice(&body);
    out
}

fn framebuffer_payload() -> Vec<u8> {
    let mut p = Vec::new();
    p.extend_from_slice(&0xFD00_0000u64.to_le_bytes());
    p.extend_from_slice(&4096u32.to_le_bytes());
    p.extend_from_slice(&1024u32.to_le_bytes());
    p.extend_from_slice(&768u32.to_le_bytes());
    p.push(32);
    p.push(1);
    p.extend_from_slice(&[0, 0]);
    p
}

#[test]
fn framebuffer_tag_is_found_behind_other_tags() {
    let bytes = block(&[
        tag(1, 13, b"quiet"),
        tag(4, 16, &[0; 8]),
        tag(8, 32, &framebuffer_payload()),
        tag(0, 8, &[]),
    ]);
    let expected =
        Framebuffer { phys_addr: 0xFD00_0000, pitch: 4096, width: 1024, height: 768, bpp: 32 };
    assert_eq!(find_framebuffer(&bytes), Some(expected));
    assert_eq!(parse_multiboot(&bytes), Ok(expected));
    assert_eq!(read_u32(&bytes, 0), bytes.len() as u32);
    assert_eq!(read_u64(&bytes, 48), 0xFD00_0000);
}

#[test]
fn block_without_framebuffer_yields_none() {
    assert_eq!(find_framebuffer(&[]), None);
    assert_eq!(find_framebuffer(&[0; 8]), None);
    assert_eq!(find_framebuffer(&block(&[tag(0, 8, &[])])), None);
    assert_eq!(find_framebuffer(&block(&[tag(1, 9, b"x"), tag(0, 8, &[])])), None);
    assert_eq!(
        find_framebuffer(&block(&[tag(0, 8, &[]), tag(8, 32, &framebuffer_payload())])),
        None
    );
    assert_eq!(find_framebuffer(&block(&[tag(8, 4000, &framebuffer_payload())])), None);
    assert_eq!(find_framebuffer(&block(&[tag(8, 16, &[0; 8])])), None);
    assert_eq!(find_framebuffer(&block(&[tag(5, 0, &[]), tag(8, 32, &framebuffer_payload())])), None);
    let mut short = block(&[tag(8, 32, &framebuffer_payload())]);
    short.truncate(30);
    assert_eq!(find_framebuffer(&short), None);
    assert!(parse_multiboot(&[0; 8]).is_err());
}

#[test]
fn multiboot_tags_measure_themselves() {
    assert_eq!(MultibootTag { typ: 1, size: 13 }.stride(), 16);
    assert_eq!(MultibootTag { typ: 1, size: 16 }.stride(), 16);
    assert_eq!(MultibootTag { typ: 1, size: 0 }.stride(), 0);
    assert_eq!(MultibootTag { typ: 1, size: u32::MAX }.stride(), 0x1_0000_0000);
    let map = MemoryMapTag { typ: 6, size: 16 + 24 * 5 + 3, entry_size: 24, entry_version: 0 };
    assert_eq!(map.entry_count(), Some(5));
    assert_eq!(MemoryMapTag { entry_size: 0, ..map }.entry_count(), None);
    assert_eq!(MemoryMapTag { size: 15, ..map }.entry_count(), None);
    let fb = FramebufferTag {
        typ: 8, size: 40, addr: 0, pitch: 4096, width: 1024, height: 768, bpp: 32, kind: 1,
        reserved: 0, red_field_position: 16, red_mask_size: 8, green_field_position: 8,
        green_mask_size: 8, blue_field_position: 0, blue_mask_size: 8,
    };
    assert_eq!(fb.pixel_offset(10, 10), Some(10 * 4096 + 40));
    assert_eq!(fb.pixel_offset(1024, 10), None);
    assert_eq!(fb.pixel_offset(10, 768), None);
    assert_eq!(FramebufferTag { kind: 0, ..fb }.pixel_offset(10, 10), None);
    assert_eq!(
        FramebufferTag { pitch: u32::MAX, height: u32::MAX, ..fb }.pixel_offset(0, 2),
        None
    );
}

fn lit(graphics: &Graphics, color: u32) -> Vec<(u64, u64)> {
    let (w, h) = graphics.get_dimensions();
    let mut out = Vec::new();
    for y in 0..h {
        for x in 0..w {
            if graphics.get_pixel(x, y) == Some(color) {
                out.push((x, y));
            }
        }
    }
    out
}

#[test]
fn pixels_and_rectangles() {
    let mut g = Graphics::new(8, 6, 32);
    assert_eq!(g.get_dimensions(), (8, 6));
    assert_eq!(g.get_pixel(7, 5), Some(0));
    assert_eq!(g.get_pixel(8, 5), None);
    g.put_pixel(2, 3, 7);
    g.put_pixel(8, 0, 7);
    g.put_pixel(0, 6, 7);
    g.put_pixel_safe(-1, 0, 7);
    g.put_pixel_safe(0, -1, 7);
    g.put_pixel_safe(7, 5, 7);
    assert_eq!(lit(&g, 7), vec![(2, 3), (7, 5)]);
    g.clear_screen(1);
    assert_eq!(lit(&g, 1).len(), 48);
    g.fill_rect(6, 4, 5, 5, 2);
    assert_eq!(lit(&g, 2), vec![(6, 4), (7, 4), (6, 5), (7, 5)]);
    g.fill_rect(1, 1, 2, 1, 3);
    assert_eq!(lit(&g, 3), vec![(1, 1), (2, 1)]);
    g.fill_rect(0, 0, 0, 6, 4);
    assert_eq!(lit(&g, 4), vec![]);
}

#[test]
fn frames_have_their_thickness() {
    let mut g = Graphics::new(8, 6, 32);
    g.draw_rect(1, 1, 5, 4, 9, 1);
    assert_eq!(
        lit(&g, 9),
        vec![
            (1, 1), (2, 1), (3, 1), (4, 1), (5, 1), (1, 2), (5, 2), (1, 3), (5, 3), (1, 4),
            (2, 4), (3, 4), (4, 4), (5, 4),
        ]
    );
    let mut g = Graphics::new(8, 8, 32);
    g.draw_rect(0, 0, 8, 8, 9, 2);
    assert_eq!(lit(&g, 0), vec![(2, 2), (3, 2), (4, 2), (5, 2), (2, 3), (3, 3), (4, 3), (5, 3),
        (2, 4), (3, 4), (4, 4), (5, 4), (2, 5), (3, 5), (4, 5), (5, 5)]);
    let mut g = Graphics::new(4, 4, 16);
    g.draw_rect(2, 2, 10, 10, 9, 1);
    assert_eq!(lit(&g, 9), vec![(2, 2), (3, 2), (2, 3)]);
    g.draw_rect(0, 0, 3, 3, 5, 0);
    assert_eq!(lit(&g, 5), vec![]);
}

#[test]
fn lines_join_their_end_points() {
    let mut g = Graphics::new(8, 8, 32);
    g.draw_line(0, 0, 7, 7, 5);
    assert_eq!(lit(&g, 5), (0..8).map(|i| (i, i)).collect::<Vec<_>>());
    let mut g = Graphics::new(8, 8, 32);
    g.draw_line(6, 2, 1, 2, 5);
    assert_eq!(lit(&g, 5), (1..7).map(|i| (i, 2)).collect::<Vec<_>>());
    let mut g = Graphics::new(8, 8, 32);
    g.draw_line(3, 3, 3, 3, 5);
    assert_eq!(lit(&g, 5), vec![(3, 3)]);
    let mut g = Graphics::new(8, 8, 32);
    g.draw_line(0, 0, 7, 3, 5);
    assert_eq!(lit(&g, 5), vec![(0, 0), (1, 0), (2, 1), (3, 1), (4, 2), (5, 2), (6, 3), (7, 3)]);
    let mut g = Graphics::new(4, 4, 16);
    g.draw_line(-2, 1, 9, 1, 5);
    assert_eq!(lit(&g, 5), vec![(0, 1), (1, 1), (2, 1), (3, 1)]);
}

#[test]
fn circles_are_symmetric() {
    let mut g = Graphics::new(9, 9, 36);
    g.draw_circle(4, 4, 3, 5);
    let points = lit(&g, 5);
    assert_eq!(
        points,
        vec![
            (3, 1), (4, 1), (5, 1), (2, 2), (6, 2), (1, 3), (7, 3), (1, 4), (7, 4), (1, 5),
            (7, 5), (2, 6), (6, 6), (3, 7), (4, 7), (5, 7),
        ]
    );
    for (x, y) in &points {
        assert!(points.contains(&(8 - x, *y)));
        assert!(points.contains(&(*x, 8 - y)));
        assert!(points.contains(&(*y, *x)));
    }
    let mut g = Graphics::new(9, 9, 36);
    g.draw_circle(4, 4, 0, 5);
    assert_eq!(lit(&g, 5), vec![(4, 4)]);
    g.draw_circle(4, 4, -1, 6);
    assert_eq!(lit(&g, 6), vec![]);
}

#[test]
fn cursor_is_drawn_saved_and_restored() {
    let mut g = Graphics::new(16, 24, 64);
    g.clear_screen(0x11);
    g.put_pixel(3, 4, 0x22);
    let saved = g.save_cursor_area(2, 3);
    assert_eq!(saved[1][1], 0x22);
    assert_eq!(saved[0][0], 0x11);
    g.draw_cursor(2, 3, 0xFFFF_FFFF);
    assert_eq!(g.get_pixel(2, 3), Some(0xFFFF_FFFF));
    assert_eq!(g.get_pixel(3, 3), Some(0x11));
    assert_eq!(g.get_pixel(3, 5), Some(0xFF00_0000));
    assert_eq!(g.get_pixel(12, 13), Some(0xFFFF_FFFF));
    assert_eq!(g.get_pixel(12, 14), Some(0xFFFF_FFFF));
    assert_eq!(g.get_pixel(2, 20), Some(0x11));
    assert_eq!(g.get_pixel(9, 21), Some(0xFFFF_FFFF));
    assert_eq!(lit(&g, 0xFFFF_FFFF).len(), 48);
    assert_eq!(lit(&g, 0xFF00_0000).len(), 69);
    g.restore_cursor_area(2, 3, &saved);
    assert_eq!(lit(&g, 0x11).len(), 16 * 24 - 1);
    assert_eq!(g.get_pixel(3, 4), Some(0x22));
    g.clear_cursor(10, 20, 0x33);
    assert_eq!(lit(&g, 0x33).len(), 6 * 4);
    let edge = g.save_cursor_area(-5, -5);
    assert_eq!(edge[0][0], 0);
    assert_eq!(edge[5][5], 0x11);
}

#[test]
fn font_knows_two_letters() {
    assert_eq!(char_o(), [0x3C, 0x66, 0xC3, 0xC3, 0xC3, 0xC3, 0x66, 0x3C]);
    assert_eq!(char_s(), [0x3C, 0x66, 0x60, 0x3C, 0x06, 0x06, 0x66, 0x3C]);
    let mut g = Graphics::new(20, 10, 80);
    draw_char(&mut g, 1, 1, 'x', 5);
    assert_eq!(lit(&g, 5), vec![]);
    draw_char(&mut g, 1, 1, 'O', 5);
    let o = lit(&g, 5);
    assert_eq!(o.len(), 4 + 4 + 4 * 4 + 4 + 4);
    assert_eq!(&o[..4], &[(3, 1), (4, 1), (5, 1), (6, 1)]);
    assert!(o.contains(&(1, 3)) && o.contains(&(8, 3)) && !o.contains(&(4, 4)));
    let mut g = Graphics::new(20, 10, 80);
    draw_string(&mut g, 1, 1, "os", 6);
    let both = lit(&g, 6);
    assert_eq!(both.len(), 32 + 26);
    assert!(both.contains(&(12, 1)) && both.contains(&(11, 3)) && !both.contains(&(16, 3)));
    assert!(both.iter().all(|(x, _)| *x != 9 && *x != 0));
    let mut g = Graphics::new(20, 10, 80);
    draw_string(&mut g, 15, 5, "S?O", 6);
    assert_eq!(lit(&g, 6).len(), 10);
}

#[test]
fn framebuffer_tag_places_the_channels() {
    let fb = FramebufferTag {
        typ: 8, size: 40, addr: 0, pitch: 4096, width: 1024, height: 768, bpp: 32, kind: 1,
        reserved: 0, red_field_position: 16, red_mask_size: 8, green_field_position: 8,
        green_mask_size: 8, blue_field_position: 0, blue_mask_size: 8,
    };
    assert_eq!(fb.pixel_color(0xFF, 0x00, 0x00), 0x00FF_0000);
    assert_eq!(fb.pixel_color(0x12, 0x34, 0x56), 0x0012_3456);
    let bgr = FramebufferTag { red_field_position: 0, blue_field_position: 16, ..fb };
    assert_eq!(bgr.pixel_color(0x12, 0x34, 0x56), 0x0056_3412);
}

#[test]
fn colours_are_laid_down_by_depth() {
    assert_eq!(pixel_bytes(32, 0xAABBCCDD), vec![0xDD, 0xCC, 0xBB, 0xAA]);
    assert_eq!(pixel_bytes(24, 0xAABBCCDD), vec![0xDD, 0xCC, 0xBB]);
    assert_eq!(rgb565(0x00FF0000), 0xF800);
    assert_eq!(rgb565(0x0000FF00), 0x07E0);
    assert_eq!(rgb565(0x000000FF), 0x001F);
    assert_eq!(rgb565(0xFFFFFFFF), 0xFFFF);
    assert_eq!(rgb565(0xFF102030), (2 << 11) | (8 << 5) | 6);
    assert_eq!(pixel_bytes(16, 0xFF102030), vec![0x06, 0x11]);
    assert_eq!(pixel_bytes(15, 0xFFFFFFFF), Vec::<u8>::new());
    assert_eq!(pixel_bytes(8, 0xFFFFFFFF), Vec::<u8>::new());
}

#[test]
fn pixels_lie_row_by_row() {
    let fb = Framebuffer { phys_addr: 0xFD00_0000, pitch: 4096, width: 1024, height: 768, bpp: 32 };
    assert_eq!(fb.pixel_offset(0, 0), Some(0));
    assert_eq!(fb.pixel_offset(3, 2), Some(2 * 4096 + 12));
    assert_eq!(fb.pixel_offset(1023, 767), Some(767 * 4096 + 1023 * 4));
    assert_eq!(fb.pixel_offset(1024, 0), None);
    assert_eq!(fb.pixel_offset(0, 768), None);
    let deep = Framebuffer { bpp: 24, pitch: 3072, ..fb };
    assert_eq!(deep.pixel_offset(3, 2), Some(2 * 3072 + 9));
    let huge = Framebuffer { pitch: usize::MAX, ..fb };
    assert_eq!(huge.pixel_offset(0, 1), Some(usize::MAX));
    assert_eq!(huge.pixel_offset(1, 1), None);
    assert_eq!(huge.pixel_offset(0, 2), None);
}

#[test]
fn rectangles_are_cut_to_the_screen() {
    let fb = Framebuffer { phys_addr: 0, pitch: 3200, width: 800, height: 600, bpp: 32 };
    assert_eq!(fb.clip(20, 20, 760, 560), Some((780, 580)));
    assert_eq!(fb.clip(700, 500, 200, 200), Some((800, 600)));
    assert_eq!(fb.clip(799, 599, usize::MAX, usize::MAX), Some((800, 600)));
    assert_eq!(fb.clip(800, 0, 10, 10), None);
    assert_eq!(fb.clip(0, 600, 10, 10), None);
    assert_eq!(fb.clip(10, 10, 0, 10), None);
    assert_eq!(fb.clip(10, 10, 10, 0), None);
}

#[test]
fn test_picture_runs_from_blue_to_red() {
    let fb = Framebuffer { phys_addr: 0, pitch: 1024, width: 256, height: 129, bpp: 32 };
    assert_eq!(fb.gradient_color(0, 0), 0xFF00_00FF);
    assert_eq!(fb.gradient_color(255, 0), 0xFFFF_0000);
    assert_eq!(fb.gradient_color(255, 128), 0xFFFF_8000);
    assert_eq!(fb.gradient_color(16, 64), 0xFF10_40EF);
    let narrow = Framebuffer { width: 1, ..fb };
    assert_eq!(narrow.gradient_color(0, 128), 0xFF00_80FF);
    let wide = Framebuffer { width: 1024, height: 768, ..fb };
    assert_eq!(wide.gradient_color(512, 384), 0xFF00_0000 | (127 << 16) | (64 << 8) | 128);
}
