//! Tests of the trap tables and the per-vector reactions: registration,
//! recovery, fatal faults, and end-of-interrupt accounting.

use rain_os::exit_qemu;
use rain_os::interrupts::breakpoint_handler;
use rain_os::interrupts::dispatch;
use rain_os::interrupts::ChainedPics;
use rain_os::interrupts::GateDescriptor;
use rain_os::interrupts::HandlerKind;
use rain_os::interrupts::InterruptDescriptorTable;
use rain_os::interrupts::PortOp;
use rain_os::interrupts::TrapFrame;
use rain_os::interrupts::TrapInfo;
use rain_os::interrupts::TrapOutcome;
use rain_os::interrupts::BREAKPOINT_VECTOR;
use rain_os::interrupts::DOUBLE_FAULT_VECTOR;
use rain_os::interrupts::KEYBOARD_DATA_PORT;
use rain_os::interrupts::KEYBOARD_VECTOR;
use rain_os::interrupts::PAGE_FAULT_VECTOR;
use rain_os::interrupts::PIC_1_COMMAND_PORT;
use rain_os::interrupts::PIC_1_DATA_PORT;
use rain_os::interrupts::PIC_1_OFFSET;
use rain_os::interrupts::PIC_2_DATA_PORT;
use rain_os::interrupts::PIC_2_OFFSET;
use rain_os::interrupts::TIMER_VECTOR;
use rain_os::QemuExitCode;

fn test_tables() -> (InterruptDescriptorTable, ChainedPics) {
    (InterruptDescriptorTable::build_and_load(8), ChainedPics::new(PIC_1_OFFSET, PIC_2_OFFSET))
}

fn test_info() -> TrapInfo {
    TrapInfo {
        frame: TrapFrame { instruction_pointer: 0x1000, cpu_flags: 0x202, stack_pointer: 0x8000 },
        fault_address: 0,
        error_code: 0,
    }
}

#[test]
fn trivial_assertion() {
    assert_eq!(1, 1);
}

#[test]
fn test_breakpoint_exception() {
    let (idt, pics) = test_tables();
    let info = test_info();
    let response = dispatch(&idt, &pics, BREAKPOINT_VECTOR, &info);
    assert_eq!(response.outcome, TrapOutcome::Resume { resume_at: 0x1000 });
    assert_eq!(response.log[0], "EXCEPTION: BREAKPOINT");
    assert_eq!(response.log[1], "instruction pointer: 0x1000");
    assert_eq!(response.log[2], "cpu flags: 0x202");
    assert!(response.eoi.is_empty());
    assert!(response.read_port.is_none());
}

#[test]
fn breakpoint_alters_neither_table() {
    let (idt, pics) = test_tables();
    let gates_before: Vec<GateDescriptor> = (0..=255u8).map(|v| idt.gate(v)).collect();
    let pics_before = pics;
    let _ = dispatch(&idt, &pics, BREAKPOINT_VECTOR, &test_info());
    for v in 0..=255u8 {
        assert_eq!(idt.gate(v), gates_before[v as usize]);
    }
    assert_eq!(pics, pics_before);
}

#[test]
fn unregistered_vectors_never_resume() {
    let (idt, pics) = test_tables();
    let info = test_info();
    for vector in [0u8, 1, 2, 9, 15, 31, 48, 100, 255] {
        let response = dispatch(&idt, &pics, vector, &info);
        assert_eq!(response.outcome, TrapOutcome::SystemReset);
        assert_eq!(response.log[0], "EXCEPTION: UNHANDLED VECTOR");
        assert!(response.eoi.is_empty());
    }
}

#[test]
fn double_fault_halts_and_reports() {
    let (idt, pics) = test_tables();
    let mut info = test_info();
    info.error_code = 0;
    let response = dispatch(&idt, &pics, DOUBLE_FAULT_VECTOR, &info);
    assert_eq!(response.outcome, TrapOutcome::Halt);
    assert_eq!(response.log[0], "EXCEPTION: DOUBLE FAULT");
    assert_eq!(response.log[1], "error code: 0x0");
    assert!(response.eoi.is_empty());
}

#[test]
fn double_fault_gate_uses_the_alternate_stack() {
    let (idt, _) = test_tables();
    let gate = idt.gate(DOUBLE_FAULT_VECTOR);
    assert_eq!(gate.handler, Some(HandlerKind::DoubleFault));
    assert_eq!(gate.stack_table_index, Some(rain_os::gdt::DOUBLE_FAULT_IST_INDEX));
    for v in 0..=255u8 {
        if v != DOUBLE_FAULT_VECTOR {
            assert_eq!(idt.gate(v).stack_table_index, None);
        }
    }
}

#[test]
fn page_fault_logs_the_faulting_address_and_halts() {
    let (idt, pics) = test_tables();
    let mut info = test_info();
    info.fault_address = 0xdeadbeaf;
    info.error_code = 0x2;
    let response = dispatch(&idt, &pics, PAGE_FAULT_VECTOR, &info);
    assert_eq!(response.outcome, TrapOutcome::Halt);
    assert_eq!(response.log[0], "EXCEPTION: PAGE FAULT");
    assert_eq!(response.log[1], "accessed address: 0xdeadbeaf");
    assert_eq!(response.log[2], "error code: 0x2");
    assert_eq!(response.log[3], "cause: page not present on write");
    // in test mode the harness then signals failure, not success
    let exit = exit_qemu(QemuExitCode::Failed);
    assert_eq!(exit.code, 0x11);
    assert_ne!(exit.code, exit_qemu(QemuExitCode::Success).code);
}

#[test]
fn page_fault_cause_decodes_the_violation_flags() {
    let (idt, pics) = test_tables();
    let mut info = test_info();
    info.fault_address = 0x2031b2;
    info.error_code = 0x1;
    let response = dispatch(&idt, &pics, PAGE_FAULT_VECTOR, &info);
    assert_eq!(response.log[3], "cause: protection violation on read");
}

#[test]
fn timer_ticks_acknowledge_exactly_once_each() {
    let (idt, pics) = test_tables();
    let info = test_info();
    let mut total_eoi = 0;
    for _ in 0..5 {
        let response = dispatch(&idt, &pics, TIMER_VECTOR, &info);
        assert_eq!(response.outcome, TrapOutcome::Resume { resume_at: 0x1000 });
        assert_eq!(response.eoi.len(), 1);
        assert_eq!(response.eoi[0], PortOp { port: PIC_1_COMMAND_PORT, value: 0x20 });
        total_eoi += response.eoi.len();
    }
    assert_eq!(total_eoi, 5);
}

#[test]
fn keyboard_reads_one_scan_code_then_acknowledges() {
    let (idt, pics) = test_tables();
    let response = dispatch(&idt, &pics, KEYBOARD_VECTOR, &test_info());
    assert_eq!(response.outcome, TrapOutcome::Resume { resume_at: 0x1000 });
    assert_eq!(response.read_port, Some(KEYBOARD_DATA_PORT));
    assert_eq!(response.eoi.len(), 1);
    assert_eq!(response.eoi[0], PortOp { port: PIC_1_COMMAND_PORT, value: 0x20 });
}

#[test]
fn pic_initialize_remaps_and_masks() {
    let mut pics = ChainedPics::new(PIC_1_OFFSET, PIC_2_OFFSET);
    let ops = pics.initialize();
    assert_eq!(ops.len(), 10);
    assert_eq!(ops[2], PortOp { port: PIC_1_DATA_PORT, value: PIC_1_OFFSET });
    assert_eq!(ops[3], PortOp { port: PIC_2_DATA_PORT, value: PIC_2_OFFSET });
    assert_eq!(ops[8], PortOp { port: PIC_1_DATA_PORT, value: 0xfc });
    assert_eq!(ops[9], PortOp { port: PIC_2_DATA_PORT, value: 0xff });
    assert_eq!(pics.primary.offset, 32);
    assert_eq!(pics.secondary.offset, 40);
    assert_eq!(pics.primary.mask, 0xfc);
    assert_eq!(pics.secondary.mask, 0xff);
}

#[test]
fn pic_ranges_are_contiguous_and_disjoint() {
    let pics = ChainedPics::new(PIC_1_OFFSET, PIC_2_OFFSET);
    for v in 0..32u8 {
        assert!(!pics.handles_interrupt(v));
    }
    for v in 32..48u8 {
        assert!(pics.handles_interrupt(v));
        let in_primary = (32..40).contains(&v);
        let in_secondary = (40..48).contains(&v);
        assert!(in_primary != in_secondary);
    }
    for v in 48..=255u8 {
        assert!(!pics.handles_interrupt(v));
    }
}

#[test]
fn eoi_for_a_secondary_vector_acknowledges_both_controllers() {
    let pics = ChainedPics::new(PIC_1_OFFSET, PIC_2_OFFSET);
    let ops = pics.signal_end_of_interrupt(44);
    assert_eq!(ops.len(), 2);
    assert_eq!(ops[0].port, rain_os::interrupts::PIC_2_COMMAND_PORT);
    assert_eq!(ops[1].port, PIC_1_COMMAND_PORT);
    let primary_ops = pics.signal_end_of_interrupt(TIMER_VECTOR);
    assert_eq!(primary_ops.len(), 1);
    assert_eq!(primary_ops[0].port, PIC_1_COMMAND_PORT);
}

#[test]
fn breakpoint_handler_log_shows_the_frame() {
    let frame = TrapFrame { instruction_pointer: 0xcafe, cpu_flags: 0x46, stack_pointer: 0x9000 };
    let response = breakpoint_handler(&frame);
    assert_eq!(response.log[1], "instruction pointer: 0xcafe");
    assert_eq!(response.log[2], "cpu flags: 0x46");
}
