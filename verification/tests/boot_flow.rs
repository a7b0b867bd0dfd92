//! Tests of the init sequencer, the boot scenario, the self-test driver
//! and the exit signal.

use rain_os::boot;
use rain_os::gdt::GlobalDescriptorTable;
use rain_os::gdt::SegmentKind;
use rain_os::gdt::TaskStateSegment;
use rain_os::gdt::DOUBLE_FAULT_IST_INDEX;
use rain_os::gdt::DOUBLE_FAULT_STACK_SIZE;
use rain_os::gdt::IST_SLOTS;
use rain_os::exit_qemu;
use rain_os::init;
use rain_os::interrupts::HandlerKind;
use rain_os::numfmt::u64_to_decimal;
use rain_os::numfmt::u64_to_hex;
use rain_os::test_panic_handler;
use rain_os::test_runner;
use rain_os::vga_buffer::BUFFER_HEIGHT;
use rain_os::vga_buffer::BUFFER_WIDTH;
use rain_os::BootStep;
use rain_os::QemuExitCode;
use rain_os::TestCase;
use rain_os::Testable;
use rain_os::ISA_DEBUG_EXIT_PORT;

const STACK_START: u64 = 0x4000_0000;
const TSS_BASE: u64 = 0x2000;

#[test]
fn init_hands_out_the_strict_boot_order() {
    let (kernel, steps) = init(STACK_START, TSS_BASE);
    assert!(kernel.interrupts_enabled);
    assert_eq!(steps.len(), 13);
    assert_eq!(steps[0], BootStep::LoadGdt);
    assert_eq!(steps[1], BootStep::LoadIdt);
    for step in &steps[2..12] {
        assert!(matches!(step, BootStep::ProgramPic(_)));
    }
    assert_eq!(steps[12], BootStep::EnableInterrupts);
}

#[test]
fn init_builds_the_tables_it_promises() {
    let (kernel, _) = init(STACK_START, TSS_BASE);
    assert_eq!(kernel.gdt.code_selector(), 8);
    assert_eq!(kernel.gdt.tss_selector(), 16);
    assert_eq!(
        kernel.gdt.double_fault_stack_top(),
        STACK_START + rain_os::gdt::DOUBLE_FAULT_STACK_SIZE
    );
    assert_eq!(
        kernel.idt.gate(rain_os::interrupts::BREAKPOINT_VECTOR).handler,
        Some(HandlerKind::Breakpoint)
    );
    assert_eq!(
        kernel.idt.gate(rain_os::interrupts::TIMER_VECTOR).handler,
        Some(HandlerKind::Timer)
    );
    assert_eq!(kernel.idt.gate(100).handler, None);
    assert_eq!(kernel.pics.primary.offset, 32);
    assert_eq!(kernel.pics.secondary.offset, 40);
}

#[test]
fn gdt_holds_null_code_and_task_descriptors() {
    let gdt = GlobalDescriptorTable::build_and_load(STACK_START, TSS_BASE);
    assert_eq!(gdt.descriptor_count(), 3);
    assert_eq!(gdt.descriptor(0).kind, SegmentKind::NullSegment);
    let code = gdt.descriptor(1);
    assert_eq!(code.kind, SegmentKind::KernelCode);
    assert_eq!(code.base, 0);
    assert_eq!(code.limit, 0xfffff);
    assert_eq!(code.access, 0x9a);
    let task = gdt.descriptor(2);
    assert_eq!(task.kind, SegmentKind::TaskState);
    assert_eq!(task.base, TSS_BASE);
    assert_eq!(task.access, 0x89);
}

#[test]
fn task_segment_populates_only_the_double_fault_slot() {
    let tss = TaskStateSegment::with_double_fault_stack(STACK_START);
    for slot in 0..IST_SLOTS {
        if slot == DOUBLE_FAULT_IST_INDEX as usize {
            assert_eq!(tss.stack_top(slot), STACK_START + DOUBLE_FAULT_STACK_SIZE);
        } else {
            assert_eq!(tss.stack_top(slot), 0);
        }
    }
}

#[test]
fn boot_greets_then_initializes_then_idles() {
    let (writer, kernel, steps) = boot(STACK_START, TSS_BASE);
    let greeting = "Hello World!";
    for (i, byte) in greeting.bytes().enumerate() {
        assert_eq!(writer.char_at(BUFFER_HEIGHT - 3, i), byte);
    }
    let survival = "It did not crash!";
    for (i, byte) in survival.bytes().enumerate() {
        assert_eq!(writer.char_at(BUFFER_HEIGHT - 2, i), byte);
    }
    assert!(kernel.interrupts_enabled);
    assert_eq!(steps.len(), 13);
    // the idle loop only halts between interrupts: absent one, no further
    // output — the bottom row stays blank and the cursor stays put
    assert_eq!(writer.column(), 0);
    for col in 0..BUFFER_WIDTH {
        assert_eq!(writer.char_at(BUFFER_HEIGHT - 1, col), b' ');
    }
}

#[test]
fn test_runner_reports_ok_and_signals_success() {
    let tests = vec![TestCase::TrivialAssertion, TestCase::BreakpointSelfTest];
    let (report, code) = test_runner(&tests);
    assert_eq!(report.len(), 3);
    assert_eq!(report[0], "Running 2 tests");
    assert_eq!(report[1], "trivial_assertion... [ok]");
    assert_eq!(report[2], "test_breakpoint_exception... [ok]");
    assert_eq!(code, QemuExitCode::Success);
    let exit = exit_qemu(code);
    assert_eq!(exit.port, ISA_DEBUG_EXIT_PORT);
    assert_eq!(exit.code, 0x10);
}

#[test]
fn every_shipped_self_test_passes_when_run() {
    assert!(TestCase::TrivialAssertion.run());
    assert!(TestCase::BreakpointSelfTest.run());
    assert_eq!(TestCase::TrivialAssertion.name(), "trivial_assertion");
    assert_eq!(TestCase::BreakpointSelfTest.name(), "test_breakpoint_exception");
}

#[test]
fn test_panic_handler_reports_failure() {
    let (report, code) = test_panic_handler("boom");
    assert_eq!(report.len(), 2);
    assert_eq!(report[0], "[failed]");
    assert_eq!(report[1], "Error: boom");
    assert_eq!(code, QemuExitCode::Failed);
    assert_eq!(exit_qemu(code).code, 0x11);
}

#[test]
fn machine_words_render_exactly() {
    assert_eq!(u64_to_hex(0), "0");
    assert_eq!(u64_to_hex(0xdeadbeaf), "deadbeaf");
    assert_eq!(u64_to_hex(u64::MAX), "ffffffffffffffff");
    assert_eq!(u64_to_decimal(0), "0");
    assert_eq!(u64_to_decimal(9876543210), "9876543210");
}
