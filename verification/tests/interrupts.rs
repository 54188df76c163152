use oxideos::pic::{verify_mask, verify_pic_mouse_state, MaskMismatch, PicLines};
use oxideos::errors::{
    classify_descriptor, classify_dispatch, classify_heap_init, classify_mask, classify_paging,
    ErrorClass,
};
use oxideos::page_table_manager::PagingError;
use oxideos::idt::{
    Idt, IdtDescriptor, IdtEntry, HardwareProtocolViolation, ATTR_INTERRUPT, IDT_LIMIT,
};
use oxideos::interrupts::{
    classify, decode_page_fault, decode_selector_error, exception_kind, handle_cpu_exception_64,
    handle_hardware_irq, handle_system_call, has_error_code, normalize, verify_handlers, CpuState,
    DescriptorTable, Dispatcher, ExceptionDetail, ExceptionKind, Forward, GeneralRegisters,
    InterruptFrame, VectorClass,
};
use oxideos::pic::{
    init, io_wait, mask_irq, remap, send_eoi, unmask_irq, ControllerPair, InitPhase, PortWrite,
    PIC1_COMMAND, PIC1_DATA, PIC2_COMMAND, PIC2_DATA, PIC_EOI, WAIT_PORT,
};

fn regs() -> GeneralRegisters {
    GeneralRegisters {
        r15: 15, r14: 14, r13: 13, r12: 12, r11: 11, r10: 10, r9: 9, r8: 8,
        rdi: 107, rsi: 106, rbp: 105, rdx: 104, rcx: 103, rbx: 102, rax: 101,
    }
}

fn cpu() -> CpuState {
    CpuState { rip: 0x20_0000, cs: 0x08, rflags: 0x202, rsp: 0x7000, ss: 0x10 }
}

fn frame(vector: u8, error_code: u64) -> InterruptFrame {
    normalize(vector, error_code, &regs(), &cpu())
}

fn raw_frame(int_no: u64) -> InterruptFrame {
    let mut f = frame(0, 0);
    f.int_no = int_no;
    f
}

#[test]
fn every_vector_names_its_stub() {
    let mut stubs = [0u32; 48];
    for (v, stub) in stubs.iter_mut().enumerate() {
        *stub = 0x0010_0000 + 0x40 * v as u32 + 0xABCD_0000 * (v as u32 % 2);
    }
    let idt = oxideos::idt::init(&stubs, 0xDEAD_BEE0, 0x28);
    for v in 0..=255u8 {
        let entry = idt.entry(v);
        let expected = if v < 48 { stubs[v as usize] } else { 0xDEAD_BEE0 };
        assert_eq!(entry.handler_address(), expected);
        assert!(entry.is_present());
        assert_eq!(entry.selector, 0x28);
        assert_eq!(entry.flags, ATTR_INTERRUPT);
        assert_eq!(entry.zero, 0);
    }
}

#[test]
fn set_handler_splits_the_address() {
    let mut entry = IdtEntry::missing();
    assert!(!entry.is_present());
    entry.set_handler(0x1234_5678, 0x08, 0x8E);
    assert_eq!(entry.offset_low, 0x5678);
    assert_eq!(entry.offset_high, 0x1234);
    assert_eq!(entry.handler_address(), 0x1234_5678);
    assert_eq!(entry.to_bytes(), [0x78, 0x56, 0x08, 0x00, 0x00, 0x8E, 0x34, 0x12]);
    entry.set_handler(0xFFFF_FFFF, 0xFFFF, 0x0E);
    assert_eq!(entry.handler_address(), 0xFFFF_FFFF);
    assert!(!entry.is_present());
}

#[test]
fn set_entry_touches_one_vector() {
    let mut idt = Idt::new();
    idt.set_entry(14, 0xCAFE_F00D, 0x08, 0x8E);
    assert_eq!(idt.entry(14).handler_address(), 0xCAFE_F00D);
    assert_eq!(idt.entry(13), IdtEntry::missing());
    assert_eq!(idt.entry(15), IdtEntry::missing());
}

#[test]
fn descriptor_round_trips_through_its_bytes() {
    let idt = Idt::new();
    let descriptor = idt.descriptor(0x0012_3456);
    assert_eq!(descriptor, IdtDescriptor { limit: IDT_LIMIT, base: 0x0012_3456 });
    assert_eq!(IDT_LIMIT, 256 * 8 - 1);
    let bytes = descriptor.to_bytes();
    assert_eq!(bytes, [0xFF, 0x07, 0x56, 0x34, 0x12, 0x00]);
    assert_eq!(IdtDescriptor::from_bytes(&bytes), descriptor);
    assert_eq!(descriptor.verify_readback(&bytes), Ok(()));
}

#[test]
fn readback_mismatch_is_a_protocol_violation() {
    let descriptor = IdtDescriptor { limit: IDT_LIMIT, base: 0x1000 };
    let found = IdtDescriptor { limit: 0x03FF, base: 0x1000 };
    assert_eq!(
        descriptor.verify_readback(&[0xFF, 0x03, 0x00, 0x10, 0x00, 0x00]),
        Err(HardwareProtocolViolation { expected: descriptor, found })
    );
}

#[test]
fn eoi_for_master_lines_goes_to_the_master_only() {
    let wait = PortWrite { port: WAIT_PORT, value: 0 };
    assert_eq!(io_wait(), wait);
    for line in 0..8 {
        assert_eq!(send_eoi(line), vec![PortWrite { port: PIC1_COMMAND, value: PIC_EOI }, wait]);
    }
}

#[test]
fn eoi_for_slave_lines_goes_to_the_slave_first() {
    let wait = PortWrite { port: WAIT_PORT, value: 0 };
    for line in 8..16 {
        assert_eq!(
            send_eoi(line),
            vec![
                PortWrite { port: PIC2_COMMAND, value: PIC_EOI },
                wait,
                PortWrite { port: PIC1_COMMAND, value: PIC_EOI },
                wait,
            ]
        );
    }
}

#[test]
fn remap_sends_the_four_command_words_and_the_masks() {
    let writes = remap(0x20, 0x28, 0xFB, 0xEF);
    let sent: Vec<(u16, u8)> =
        writes.iter().filter(|w| w.port != WAIT_PORT).map(|w| (w.port, w.value)).collect();
    assert_eq!(
        sent,
        vec![
            (0x20, 0x11), (0xA0, 0x11), (0x21, 0x20), (0xA1, 0x28), (0x21, 0x04),
            (0xA1, 0x02), (0x21, 0x01), (0xA1, 0x01), (0x21, 0xFB), (0xA1, 0xEF),
        ]
    );
    assert_eq!(writes.len(), 20);
    assert!(writes.iter().skip(1).step_by(2).all(|w| *w == io_wait()));
    assert_eq!(init(0xFB, 0xEF), writes);
}

#[test]
fn remapped_controllers_report_their_offsets() {
    let mut pair = ControllerPair::new();
    pair.remap(0x20, 0x28);
    assert_eq!(pair.master.offset, 0x20);
    assert_eq!(pair.slave.offset, 0x28);
    assert_eq!(pair.master.mask, 0xFF);
    assert_eq!(pair.slave.mask, 0xFF);
    assert_eq!(pair.master.phase, InitPhase::Ready);
    assert_eq!(pair.slave.phase, InitPhase::Ready);
    assert_eq!(pair.master.cascade, 0x04);
    assert_eq!(pair.slave.cascade, 0x02);
    let mut other = ControllerPair::new();
    other.apply(&init(0xFF, 0xFF));
    assert_eq!(other, pair);
}

#[test]
fn remap_keeps_the_masks_it_found() {
    let mut pair = ControllerPair::new();
    pair.write(PortWrite { port: PIC1_DATA, value: 0xF8 });
    pair.write(PortWrite { port: PIC2_DATA, value: 0xEF });
    pair.remap(0x30, 0x38);
    assert_eq!(pair.master.mask, 0xF8);
    assert_eq!(pair.slave.mask, 0xEF);
    assert_eq!(pair.master.offset, 0x30);
    assert_eq!(pair.slave.offset, 0x38);
}

#[test]
fn eoi_with_nothing_pending_changes_nothing() {
    let mut pair = ControllerPair::new();
    pair.remap(0x20, 0x28);
    let before = pair;
    for line in 0..16 {
        pair.send_eoi(line);
        assert_eq!(pair, before);
    }
}

#[test]
fn eoi_takes_the_line_out_of_service() {
    let mut pair = ControllerPair::new();
    pair.remap(0x20, 0x28);
    let idle = pair;
    pair.deliver(0);
    assert_eq!(pair.master.in_service, 0x01);
    pair.send_eoi(0);
    assert_eq!(pair, idle);
    pair.deliver(12);
    assert_eq!(pair.master.in_service, 0x04);
    assert_eq!(pair.slave.in_service, 0x10);
    pair.send_eoi(12);
    assert_eq!(pair, idle);
}

#[test]
fn mask_and_unmask_toggle_the_bit_of_the_line() {
    assert_eq!(mask_irq(0, 0x00), PortWrite { port: PIC1_DATA, value: 0x01 });
    assert_eq!(mask_irq(7, 0x01), PortWrite { port: PIC1_DATA, value: 0x81 });
    assert_eq!(mask_irq(12, 0x00), PortWrite { port: PIC2_DATA, value: 0x10 });
    assert_eq!(unmask_irq(12, 0xFF), PortWrite { port: PIC2_DATA, value: 0xEF });
    assert_eq!(unmask_irq(1, 0xFF), PortWrite { port: PIC1_DATA, value: 0xFD });
    assert_eq!(unmask_irq(15, 0x7F), PortWrite { port: PIC2_DATA, value: 0x7F });
}

#[test]
fn stubs_fill_in_the_missing_error_code() {
    let with = [8u8, 10, 11, 12, 13, 14, 17];
    for v in 0..=255u8 {
        assert_eq!(has_error_code(v), with.contains(&v));
        let f = frame(v, 0xBEEF);
        assert_eq!(f.int_no, v as u64);
        assert_eq!(f.err_code, if with.contains(&v) { 0xBEEF } else { 0 });
        assert_eq!(f.registers(), regs());
        assert_eq!((f.rip, f.cs, f.rflags, f.rsp, f.ss), (0x20_0000, 0x08, 0x202, 0x7000, 0x10));
    }
}

#[test]
fn vectors_fall_into_their_classes() {
    for v in 0..=31 {
        assert_eq!(classify(v), VectorClass::Exception);
    }
    assert_eq!(classify(32), VectorClass::Timer);
    assert_eq!(classify(33), VectorClass::Keyboard);
    for v in (34..=43).chain(45..=47) {
        assert_eq!(classify(v), VectorClass::HardwareIrq);
    }
    assert_eq!(classify(44), VectorClass::Mouse);
    assert_eq!(classify(48), VectorClass::Reserved);
    assert_eq!(classify(127), VectorClass::Reserved);
    assert_eq!(classify(128), VectorClass::Syscall);
    assert_eq!(classify(129), VectorClass::Software);
    assert_eq!(classify(255), VectorClass::Software);
    assert_eq!(classify(256), VectorClass::Invalid);
    assert_eq!(classify(u64::MAX), VectorClass::Invalid);
}

#[test]
fn page_fault_with_bit_one_set_is_a_write() {
    let mut dispatcher = Dispatcher::new();
    let mut f = frame(14, 0b010);
    let d = dispatcher.isr_common_handler(&mut f, 0xDEAD_B000);
    assert!(d.halt);
    assert_eq!(d.class, VectorClass::Exception);
    assert_eq!(d.eoi, None);
    let report = d.report.unwrap();
    assert_eq!(report.kind, ExceptionKind::PageFault);
    assert_eq!(report.kind.name(), "Page Fault");
    match report.detail {
        ExceptionDetail::PageFault(info) => {
            assert!(info.write);
            assert!(!info.protection_violation);
            assert!(!info.user);
            assert_eq!(info.address, 0xDEAD_B000);
        }
        other => panic!("{:?}", other),
    }
}

#[test]
fn page_fault_with_bit_one_clear_is_a_read() {
    let mut dispatcher = Dispatcher::new();
    let mut f = frame(14, 0b101);
    let d = dispatcher.isr_common_handler(&mut f, 0x1000);
    match d.report.unwrap().detail {
        ExceptionDetail::PageFault(info) => {
            assert!(!info.write);
            assert!(info.protection_violation);
            assert!(info.user);
        }
        other => panic!("{:?}", other),
    }
    assert_eq!(decode_page_fault(0, 7).write, false);
    assert_eq!(decode_page_fault(2, 7).write, true);
    assert_eq!(decode_page_fault(0xFFFF_FFFF_FFFF_FFF8, 7).user, false);
}

#[test]
fn ten_timer_interrupts_are_ten_ticks_and_ten_eois_to_line_zero() {
    let mut dispatcher = Dispatcher::new();
    let mut pair = ControllerPair::new();
    pair.remap(0x20, 0x28);
    let mut eois = Vec::new();
    for _ in 0..10 {
        pair.deliver(0);
        let mut f = frame(32, 0);
        let before = f;
        let d = dispatcher.isr_common_handler(&mut f, 0);
        assert_eq!(f, before);
        assert!(!d.halt);
        assert_eq!(d.forward, Forward::Nobody);
        assert_eq!(d.report, None);
        eois.push(d.eoi);
        let writes = d.eoi_sequence();
        assert_eq!(writes, send_eoi(0));
        assert!(writes.iter().all(|w| w.port == PIC1_COMMAND || w.port == WAIT_PORT));
        pair.apply(&writes);
    }
    assert_eq!(dispatcher.get_timer_ticks(), 10);
    assert_eq!(dispatcher.get_mouse_interrupt_count(), 0);
    assert_eq!(eois, vec![Some(0); 10]);
    assert_eq!(pair.master.in_service, 0);
}

#[test]
fn hardware_lines_are_acknowledged_by_number() {
    let mut dispatcher = Dispatcher::new();
    for v in 32..=47u8 {
        let mut f = frame(v, 0);
        let d = dispatcher.isr_common_handler(&mut f, 0);
        assert_eq!(d.eoi, Some(v - 32));
        assert!(!d.halt);
    }
    assert_eq!(dispatcher.get_timer_ticks(), 1);
    assert_eq!(dispatcher.get_mouse_interrupt_count(), 1);
    assert_eq!(handle_hardware_irq(39), 7);
    let mut f = frame(33, 0);
    assert_eq!(dispatcher.isr_common_handler(&mut f, 0).forward, Forward::Keyboard);
    let mut f = frame(44, 0);
    assert_eq!(dispatcher.isr_common_handler(&mut f, 0).forward, Forward::Mouse);
    assert_eq!(dispatcher.get_mouse_interrupt_count(), 2);
}

#[test]
fn every_exception_halts() {
    let mut dispatcher = Dispatcher::new();
    for v in 0..32u8 {
        let mut f = frame(v, 0x18);
        let d = dispatcher.isr_common_handler(&mut f, 0);
        assert!(d.halt);
        assert_eq!(d.eoi, None);
        let report = d.report.unwrap();
        assert_eq!(report.vector, v as u64);
        assert_eq!(report.kind, exception_kind(v as u64));
        assert_eq!((report.rip, report.rsp, report.rbp, report.rax), (0x20_0000, 0x7000, 105, 101));
        assert_eq!((report.cs, report.rflags, report.ss), (0x08, 0x202, 0x10));
        assert_eq!(report.registers, regs());
    }
    assert_eq!(dispatcher.get_timer_ticks(), 0);
    assert_eq!(exception_kind(0).name(), "Divide by Zero");
    assert_eq!(exception_kind(8).name(), "Double Fault");
    assert_eq!(exception_kind(13).name(), "General Protection Fault");
    assert_eq!(exception_kind(21).name(), "Control Protection Exception");
    assert_eq!(exception_kind(22).name(), "Reserved/Unknown");
    assert_eq!(exception_kind(31), ExceptionKind::Unknown);
}

#[test]
fn general_protection_fault_decodes_its_selector() {
    let f = frame(13, 0x2B);
    let report = handle_cpu_exception_64(&f, 0);
    match report.detail {
        ExceptionDetail::Selector(s) => {
            assert!(s.external);
            assert_eq!(s.table, DescriptorTable::Idt);
            assert_eq!(s.index, 5);
        }
        other => panic!("{:?}", other),
    }
    assert_eq!(handle_cpu_exception_64(&frame(13, 0), 0).detail, ExceptionDetail::Nothing);
    assert_eq!(decode_selector_error(0x14).table, DescriptorTable::Ldt);
    assert_eq!(decode_selector_error(0x10).table, DescriptorTable::Gdt);
    assert_eq!(decode_selector_error(0x10).index, 2);
    assert!(!decode_selector_error(0x10).external);
}

#[test]
fn invalid_vector_and_null_frame_halt() {
    let mut dispatcher = Dispatcher::new();
    let mut f = raw_frame(256);
    let d = dispatcher.isr_common_handler(&mut f, 0);
    assert!(d.halt);
    assert_eq!(d.class, VectorClass::Invalid);
    assert_eq!(d.report, None);
    let n = dispatcher.null_frame();
    assert!(n.halt);
    assert_eq!(n.eoi, None);
    assert_eq!(dispatcher.get_timer_ticks(), 0);
}

#[test]
fn syscall_is_forwarded_with_its_arguments() {
    let mut dispatcher = Dispatcher::new();
    let mut f = frame(128, 0);
    f.rax = 1;
    let d = dispatcher.isr_common_handler(&mut f, 0);
    assert_eq!(d.forward, Forward::Syscall { number: 1, arg1: 107, arg2: 106, arg3: 104 });
    assert_eq!(f.rax, 1);
    assert!(!d.halt);
    assert_eq!(d.eoi, None);
    f.rax = 77;
    let d = dispatcher.isr_common_handler(&mut f, 0);
    assert_eq!(d.forward, Forward::Syscall { number: 77, arg1: 107, arg2: 106, arg3: 104 });
    assert_eq!(f.rax, u64::MAX);
    let mut g = frame(0, 0);
    g.rax = 0;
    assert_eq!(handle_system_call(&mut g), Forward::Syscall { number: 0, arg1: 107, arg2: 106, arg3: 104 });
    assert_eq!(g.rax, 0);
}

#[test]
fn reserved_and_software_vectors_do_nothing() {
    let mut dispatcher = Dispatcher::new();
    for v in [48u8, 100, 127, 129, 200, 255] {
        let mut f = frame(v, 0);
        let before = f;
        let d = dispatcher.isr_common_handler(&mut f, 0);
        assert_eq!(f, before);
        assert!(!d.halt);
        assert_eq!(d.eoi, None);
        assert_eq!(d.forward, Forward::Nobody);
        assert!(d.eoi_sequence().is_empty());
    }
}

#[test]
fn stub_addresses_are_checked_for_plausibility() {
    assert!(verify_handlers(0x10_0000));
    assert!(!verify_handlers(0xF_FFFF));
    assert!(verify_handlers(0x7FFF_FFFF_FFFF_FFFF));
    assert!(!verify_handlers(0x8000_0000_0000_0000));
}

#[test]
fn mask_registers_tell_which_lines_are_open() {
    let (lines, writes) = verify_pic_mouse_state(0xFA, 0xFF);
    assert_eq!(
        lines,
        PicLines { timer_enabled: true, keyboard_enabled: false, cascade_enabled: true, mouse_enabled: false }
    );
    assert_eq!(writes, [PortWrite { port: PIC2_DATA, value: 0xEF }, PortWrite { port: PIC1_DATA, value: 0xFA }]);
    let (lines, writes) = verify_pic_mouse_state(0x04, 0x00);
    assert!(!lines.cascade_enabled && lines.mouse_enabled && lines.keyboard_enabled);
    assert_eq!(writes[1].value, 0x00);
    let write = unmask_irq(12, 0xFF);
    assert_eq!(verify_mask(write, 0xEF), Ok(()));
    assert_eq!(
        verify_mask(write, 0xFF),
        Err(MaskMismatch { port: PIC2_DATA, expected: 0xEF, found: 0xFF })
    );
}

#[test]
fn table_with_a_missing_vector_is_found_out() {
    let mut idt = Idt::new();
    assert_eq!(idt.missing_vector(), Some(0));
    for v in 0..=255u8 {
        if v != 77 {
            idt.set_entry(v, 0x1000 + v as u32, 8, ATTR_INTERRUPT);
        }
    }
    assert_eq!(idt.missing_vector(), Some(77));
    idt.set_entry(77, 0x2000, 8, 0x0E);
    assert_eq!(idt.missing_vector(), Some(77));
    idt.set_entry(77, 0x2000, 8, ATTR_INTERRUPT);
    assert_eq!(idt.missing_vector(), None);
    let stubs = [0x10_0000u32; 48];
    assert_eq!(oxideos::idt::init(&stubs, 0x20_0000, 8).missing_vector(), None);
}

#[test]
fn failures_fall_into_their_classes() {
    assert_eq!(classify_paging(&PagingError::OutOfFrames), ErrorClass::ResourceExhausted);
    assert_eq!(classify_paging(&PagingError::AlreadyMapped), ErrorClass::DoubleMapping);
    assert_eq!(classify_paging(&PagingError::NotMapped { level: 2 }), ErrorClass::NotMapped);
    assert_eq!(
        classify_heap_init(&oxideos::allocator::HeapInitError::NoUsableMemory),
        ErrorClass::ResourceExhausted
    );
    let descriptor = IdtDescriptor { limit: 1, base: 2 };
    assert_eq!(
        classify_descriptor(&HardwareProtocolViolation { expected: descriptor, found: descriptor }),
        ErrorClass::HardwareProtocolViolation
    );
    assert_eq!(
        classify_mask(&oxideos::pic::MaskMismatch { port: 0x21, expected: 0, found: 1 }),
        ErrorClass::HardwareProtocolViolation
    );
    let mut dispatcher = Dispatcher::new();
    let mut class_of = |vector: u8, err: u64| {
        let mut f = frame(vector, err);
        classify_dispatch(&dispatcher.isr_common_handler(&mut f, 0))
    };
    assert_eq!(class_of(14, 0b010), Some(ErrorClass::UnmappedAccess));
    assert_eq!(class_of(14, 0b011), Some(ErrorClass::FatalException));
    assert_eq!(class_of(8, 0), Some(ErrorClass::FatalException));
    assert_eq!(class_of(13, 8), Some(ErrorClass::FatalException));
    assert_eq!(class_of(32, 0), None);
    assert_eq!(class_of(128, 0), None);
    let mut invalid = raw_frame(300);
    let d = Dispatcher::new().isr_common_handler(&mut invalid, 0);
    assert_eq!(classify_dispatch(&d), Some(ErrorClass::InvalidVector));
    assert_eq!(classify_dispatch(&Dispatcher::new().null_frame()), Some(ErrorClass::InvalidVector));
    for class in [ErrorClass::UnmappedAccess, ErrorClass::InvalidVector, ErrorClass::FatalException] {
        assert!(class.is_fatal());
    }
    for class in [
        ErrorClass::HardwareProtocolViolation,
        ErrorClass::ResourceExhausted,
        ErrorClass::DoubleMapping,
        ErrorClass::NotMapped,
    ] {
        assert!(!class.is_fatal());
    }
}

#[test]
fn every_vector_names_its_stub_in_long_mode() {
    let mut stubs = [0u64; 48];
    for (v, stub) in stubs.iter_mut().enumerate() {
        *stub = 0xFFFF_FFFF_8010_0000 + 0x40 * v as u64;
    }
    let catch_all = 0xFFFF_FFFF_8020_1234;
    let table = oxideos::idt64::init(&stubs, catch_all, 0x28);
    for v in 0..=255u8 {
        let entry = table.entry(v);
        let expected = if v < 48 { stubs[v as usize] } else { catch_all };
        assert_eq!(entry.handler_address(), expected);
        assert!(entry.is_present());
        assert_eq!(entry.selector, 0x28);
        assert_eq!(entry.type_attr, ATTR_INTERRUPT);
        assert_eq!((entry.ist, entry.reserved), (0, 0));
    }
    assert_eq!(table.missing_vector(), None);
    let entry = table.entry(3);
    assert_eq!(entry.offset_low, 0x00C0);
    assert_eq!(entry.offset_mid, 0x8010);
    assert_eq!(entry.offset_high, 0xFFFF_FFFF);
    assert_eq!(
        entry.to_bytes(),
        [0xC0, 0x00, 0x28, 0x00, 0x00, 0x8E, 0x10, 0x80, 0xFF, 0xFF, 0xFF, 0xFF, 0, 0, 0, 0]
    );
}

#[test]
fn long_mode_table_register_reads_back() {

    let table = oxideos::idt64::Idt64::new();
    assert_eq!(table.missing_vector(), Some(0));
    assert_eq!(table.entry(200).handler_address(), 0);
    let descriptor = table.descriptor(0xFFFF_8000_0012_3450);
    assert_eq!(descriptor.limit, 4095);
    let bytes = descriptor.to_bytes();
    assert_eq!(bytes, [0xFF, 0x0F, 0x50, 0x34, 0x12, 0x00, 0x00, 0x80, 0xFF, 0xFF]);
    assert_eq!(oxideos::idt64::IdtDescriptor64::from_bytes(&bytes), descriptor);
    assert_eq!(descriptor.verify_readback(&bytes), Ok(()));
    assert!(oxideos::idt64::verify_idt_entries_64bit(&bytes));
    let mut wrong = bytes;
    wrong[9] = 0x7F;
    let found = oxideos::idt64::IdtDescriptor64 { limit: 4095, base: 0x7FFF_8000_0012_3450 };
    let mismatch = oxideos::idt64::TableMismatch { expected: descriptor, found };
    assert_eq!(descriptor.verify_readback(&wrong), Err(mismatch));
    assert_eq!(
        oxideos::errors::classify_table(&mismatch),
        ErrorClass::HardwareProtocolViolation
    );
    assert!(!oxideos::idt64::verify_idt_entries_64bit(&[0xFF, 0x0F, 0, 0, 0, 0, 0, 0, 0, 0]));
    assert!(!oxideos::idt64::verify_idt_entries_64bit(&[0xFF, 0x07, 1, 0, 0, 0, 0, 0, 0, 0]));
    let mut table = table;
    table.set_entry(14, 0x1234_5678_9ABC_DEF0, 8, ATTR_INTERRUPT);
    assert_eq!(table.entry(14).handler_address(), 0x1234_5678_9ABC_DEF0);
    assert_eq!(table.entry(13).handler_address(), 0);
    assert_eq!(table.missing_vector(), Some(0));
}

#[test]
fn lines_belong_to_their_controller() {
    for line in 0..8u8 {
        assert_eq!(oxideos::pic::data_port(line), PIC1_DATA);
    }
    for line in 8..16u8 {
        assert_eq!(oxideos::pic::data_port(line), PIC2_DATA);
    }
}
