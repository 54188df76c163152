//! Trap handling and virtual-memory core of a small 64-bit kernel, with the
//! text and pixel front ends that sit on top of it.

pub mod bits;
pub mod frame_allocator;
pub mod framebuffer_draw;
pub mod main_loop;
pub mod memory_map;
pub mod page_table;
pub mod page_table_manager;
pub mod paging_allocator;
pub mod allocator;
pub mod pic;
pub mod idt;
pub mod idt64;
pub mod interrupts;
pub mod colors;
pub mod page_allocator;
pub mod paging;
pub mod scancode;
pub mod syscall;
pub mod syscall_handler;
pub mod mouse;
pub mod keyboard;
pub mod widgets;
pub mod vga;
pub mod console;
pub mod vga_buffer;
pub mod isr;
pub mod exception;
pub mod multiboot_parser;
pub mod multiboot2_parser;
pub mod window_manager;
pub mod graphics;
pub mod fonts;
pub mod timer;
pub mod text_editor;
pub mod errors;
pub mod desktop;
pub mod display_list;
