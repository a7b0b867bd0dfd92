//! Bring-up core of a minimal bare-metal kernel, as a verified model.
//!
//! The library builds the privileged CPU structures of early boot — the
//! global descriptor table with its task state segment, the 256-entry
//! interrupt descriptor table, and the state of the two chained legacy
//! interrupt controllers — as plain owned values with proved invariants,
//! and decides, for every trap vector, how the processor must react.
//! Loading the structures into the CPU, port input/output and the actual
//! halt instruction are privileged operations; the library describes each
//! of them as a plain value (a boot step, a port write) that an unverified
//! host shell performs in the stated order.

pub mod gdt;
pub mod interrupts;
pub mod numfmt;
pub mod vga_buffer;

use vstd::prelude::*;
use vstd::string::StringExecFns;

use crate::gdt::DOUBLE_FAULT_IST_INDEX;
use crate::gdt::DOUBLE_FAULT_STACK_SIZE;
use crate::gdt::GlobalDescriptorTable;
use crate::interrupts::ChainedPics;
use crate::interrupts::DOUBLE_FAULT_VECTOR;
use crate::interrupts::InterruptDescriptorTable;
use crate::interrupts::PIC_1_INITIAL_MASK;
use crate::interrupts::PIC_1_OFFSET;
use crate::interrupts::PIC_2_INITIAL_MASK;
use crate::interrupts::PIC_2_OFFSET;
use crate::interrupts::PortOp;
use crate::interrupts::TrapInfo;
use crate::interrupts::pic_init_sequence;
use crate::interrupts::trap_log;
use crate::interrupts::trap_outcome;
use crate::numfmt::spec_decimal;
use crate::numfmt::u64_to_decimal;

verus! {

/// The port the emulated machine's exit device listens on.
pub const ISA_DEBUG_EXIT_PORT: u16 = 0xf4;

/// One privileged step of the boot sequence, to be performed by the host
/// shell in exactly the order the sequencer hands them out.
#[derive(Debug, Clone, Copy, PartialEq, Eq, Structural)]
pub enum BootStep {
    /// Load the descriptor table and reload the code-segment and task
    /// registers with its selectors.
    LoadGdt,
    /// Load the interrupt descriptor table.
    LoadIdt,
    /// Write one command byte to an interrupt-controller port.
    ProgramPic(PortOp),
    /// Set the interrupt flag: from here on the CPU may vector
    /// asynchronously into the handlers.
    EnableInterrupts,
}

/// The strict boot order: descriptor table first (the double-fault gate
/// needs its stack slot), then the interrupt table, then the controller
/// programming, and only then the single step that lets interrupts fire.
pub open spec fn boot_plan(pic_ops: Seq<PortOp>) -> Seq<BootStep> {
    seq![BootStep::LoadGdt, BootStep::LoadIdt] + pic_ops.map_values(
        |op: PortOp| BootStep::ProgramPic(op),
    ) + seq![BootStep::EnableInterrupts]
}

/// The whole bring-up state: every table the init sequencer builds, owned
/// in one place for the lifetime of the kernel.
pub struct Kernel {
    pub gdt: GlobalDescriptorTable,
    pub idt: InterruptDescriptorTable,
    pub pics: ChainedPics,
    pub interrupts_enabled: bool,
}

impl Kernel {
    /// Everything `init` establishes: a well-formed descriptor table, an
    /// interrupt table fully registered under its code selector, and the
    /// controller pair remapped and masked as stated.
    pub open spec fn wf(self) -> bool {
        &&& self.gdt.wf()
        &&& self.idt.loaded_with(self.gdt.spec_code_selector())
        &&& self.pics.offsets_valid()
        &&& self.pics.standard_offsets()
        &&& self.pics.primary.mask == PIC_1_INITIAL_MASK
        &&& self.pics.secondary.mask == PIC_2_INITIAL_MASK
    }
}

/// Runs the bring-up strictly in order: descriptor tables, interrupt
/// table, controller programming, interrupt enable. Returns the finished
/// kernel state and the privileged steps the host shell must perform, in
/// that exact order. The caller supplies where the double-fault stack
/// region and the task state segment live in memory.
pub fn init(double_fault_stack_start: u64, tss_base: u64) -> (r: (Kernel, Vec<BootStep>))
    requires
        double_fault_stack_start > 0,
        double_fault_stack_start + DOUBLE_FAULT_STACK_SIZE <= u64::MAX,
    ensures
        r.0.wf(),
        r.0.interrupts_enabled,
        r.0.gdt.task_segment().slots()[DOUBLE_FAULT_IST_INDEX as int] == double_fault_stack_start
            + DOUBLE_FAULT_STACK_SIZE,
        r.1@ == boot_plan(pic_init_sequence(PIC_1_OFFSET, PIC_2_OFFSET)),
{
    let gdt = GlobalDescriptorTable::build_and_load(double_fault_stack_start, tss_base);
    let idt = InterruptDescriptorTable::build_and_load(gdt.code_selector());
    let mut pics = ChainedPics::new(PIC_1_OFFSET, PIC_2_OFFSET);
    let pic_ops = pics.initialize();

    let mut steps: Vec<BootStep> = Vec::new();
    steps.push(BootStep::LoadGdt);
    steps.push(BootStep::LoadIdt);
    let mut i: usize = 0;
    while i < pic_ops.len()
        invariant
            i <= pic_ops@.len(),
            pic_ops@ == pic_init_sequence(PIC_1_OFFSET, PIC_2_OFFSET),
            steps@ == seq![BootStep::LoadGdt, BootStep::LoadIdt] + pic_ops@.take(
                i as int,
            ).map_values(|op: PortOp| BootStep::ProgramPic(op)),
        decreases pic_ops@.len() - i,
    {
        steps.push(BootStep::ProgramPic(pic_ops[i]));
        proof {
            assert(pic_ops@.take(i + 1).map_values(|op: PortOp| BootStep::ProgramPic(op))
                =~= pic_ops@.take(i as int).map_values(|op: PortOp| BootStep::ProgramPic(op)).push(
                BootStep::ProgramPic(pic_ops@[i as int]),
            ));
        }
        i = i + 1;
    }
    steps.push(BootStep::EnableInterrupts);
    proof {
        assert(pic_ops@.take(pic_ops@.len() as int) =~= pic_ops@);
        assert(steps@ =~= boot_plan(pic_init_sequence(PIC_1_OFFSET, PIC_2_OFFSET)));
    }
    (Kernel { gdt, idt, pics, interrupts_enabled: true }, steps)
}

/// The boot path the loader's entry point follows: greet on the screen,
/// run `init`, then report survival. The host shell performs the returned
/// privileged steps in order and finally parks the CPU in the idle loop —
/// an unbounded halt-until-interrupt with no side effects of its own, so
/// absent an interrupt no further output occurs.
pub fn boot(double_fault_stack_start: u64, tss_base: u64) -> (r: (
    vga_buffer::Writer,
    Kernel,
    Vec<BootStep>,
))
    requires
        double_fault_stack_start > 0,
        double_fault_stack_start + DOUBLE_FAULT_STACK_SIZE <= u64::MAX,
    ensures
        r.1.wf(),
        r.1.interrupts_enabled,
        r.2@ == boot_plan(pic_init_sequence(PIC_1_OFFSET, PIC_2_OFFSET)),
        r.0.wf(),
        ({
            let color = r.0.color();
            let greeted = vga_buffer::after_chars(
                vga_buffer::blank_screen(color),
                0,
                color,
                "Hello World!\n"@,
            );
            (r.0.screen(), r.0.col()) == vga_buffer::after_chars(
                greeted.0,
                greeted.1,
                color,
                "It did not crash!\n"@,
            )
        }),
{
    let color_code = vga_buffer::ColorCode::new(
        vga_buffer::Color::Yellow,
        vga_buffer::Color::Black,
    );
    let mut writer = vga_buffer::Writer::new(color_code);
    writer.write_string("Hello World!\n");
    let (kernel, steps) = init(double_fault_stack_start, tss_base);
    writer.write_string("It did not crash!\n");
    (writer, kernel, steps)
}

/// A deliberately induced double fault — say unbounded recursion
/// exhausting the main stack — is caught on the dedicated alternate
/// stack: the initialized kernel routes its vector through the one gate
/// that switches stacks, that gate's stack slot is populated, and the
/// handler still runs, reports, and halts rather than silently resetting.
pub proof fn lemma_double_fault_caught_on_alternate_stack(k: Kernel, info: TrapInfo)
    requires
        k.wf(),
    ensures
        k.idt.gates()[DOUBLE_FAULT_VECTOR as int].stack_table_index == Some(
            DOUBLE_FAULT_IST_INDEX,
        ),
        k.gdt.task_segment().slots()[DOUBLE_FAULT_IST_INDEX as int] > 0,
        trap_outcome(DOUBLE_FAULT_VECTOR, info) is Halt,
        trap_log(DOUBLE_FAULT_VECTOR, info).len() > 0,
{
}

/// Status the emulated machine is terminated with; distinct from the
/// emulator's own default codes.
#[derive(Debug, Clone, Copy, PartialEq, Eq, Structural)]
pub enum QemuExitCode {
    Success,
    Failed,
}

impl QemuExitCode {
    /// The value written to the exit device.
    pub open spec fn spec_code(self) -> u32 {
        match self {
            QemuExitCode::Success => 0x10,
            QemuExitCode::Failed => 0x11,
        }
    }

    /// Returns the value written to the exit device.
    pub fn code(self) -> (r: u32)
        ensures
            r == self.spec_code(),
    {
        match self {
            QemuExitCode::Success => 0x10,
            QemuExitCode::Failed => 0x11,
        }
    }
}

/// The single write that terminates the emulated machine: a status code
/// to the fixed exit port.
#[derive(Debug, Clone, Copy, PartialEq, Eq, Structural)]
pub struct ExitRequest {
    pub port: u16,
    pub code: u32,
}

/// The exit signal owed to the test harness: the host shell writes the
/// returned code to the returned port, which terminates the emulated
/// machine with that status. Not used by the production boot path.
pub fn exit_qemu(exit_code: QemuExitCode) -> (r: ExitRequest)
    ensures
        r.port == ISA_DEBUG_EXIT_PORT,
        r.code == exit_code.spec_code(),
{
    ExitRequest { port: ISA_DEBUG_EXIT_PORT, code: exit_code.code() }
}

/// A runnable self-test: something with a name and a pass verdict the
/// contract pins down.
pub trait Testable {
    /// The test's name, as the report prints it.
    spec fn spec_name(&self) -> Seq<char>;

    /// Whether the test passes.
    spec fn spec_passes(&self) -> bool;

    /// Returns the test's name.
    fn name(&self) -> (r: String)
        ensures
            r@ == self.spec_name(),
    ;

    /// Runs the test and returns whether it passed.
    fn run(&self) -> (r: bool)
        ensures
            r == self.spec_passes(),
    ;
}

/// The closed list of self-tests this kernel ships: explicit descriptors
/// iterated by the test driver, not open-ended dynamic dispatch.
#[derive(Debug, Clone, Copy, PartialEq, Eq, Structural)]
pub enum TestCase {
    /// The smallest possible probe: one equality.
    TrivialAssertion,
    /// Triggers the breakpoint trap through freshly built tables and
    /// checks that it resumes at the saved instruction pointer.
    BreakpointSelfTest,
}

impl Testable for TestCase {
    open spec fn spec_name(&self) -> Seq<char> {
        match self {
            TestCase::TrivialAssertion => "trivial_assertion"@,
            TestCase::BreakpointSelfTest => "test_breakpoint_exception"@,
        }
    }

    open spec fn spec_passes(&self) -> bool {
        true
    }

    fn name(&self) -> (r: String) {
        match self {
            TestCase::TrivialAssertion => String::from_str("trivial_assertion"),
            TestCase::BreakpointSelfTest => String::from_str("test_breakpoint_exception"),
        }
    }

    fn run(&self) -> (r: bool) {
        match self {
            TestCase::TrivialAssertion => {
                let left: u64 = 1;
                left == 1
            },
            TestCase::BreakpointSelfTest => {
                let idt = InterruptDescriptorTable::build_and_load(8);
                let pics = ChainedPics::new(PIC_1_OFFSET, PIC_2_OFFSET);
                let frame = crate::interrupts::TrapFrame {
                    instruction_pointer: 0x1000,
                    cpu_flags: 0x202,
                    stack_pointer: 0x8000,
                };
                let info = TrapInfo { frame, fault_address: 0, error_code: 0 };
                let response = crate::interrupts::dispatch(
                    &idt,
                    &pics,
                    crate::interrupts::BREAKPOINT_VECTOR,
                    &info,
                );
                match response.outcome {
                    crate::interrupts::TrapOutcome::Resume { resume_at } => resume_at == 0x1000,
                    _ => false,
                }
            },
        }
    }
}

/// One line of the test report.
pub open spec fn run_report_line(name: Seq<char>, passed: bool) -> Seq<char> {
    if passed {
        name + "... [ok]"@
    } else {
        name + "... [failed]"@
    }
}

/// The header line of the test report.
pub open spec fn runner_header(n: nat) -> Seq<char> {
    "Running "@ + spec_decimal(n) + " tests"@
}

/// The per-test lines of the report: one line per test, marked with its
/// verdict.
pub open spec fn runner_lines<T: Testable>(tests: Seq<T>) -> Seq<Seq<char>> {
    Seq::new(tests.len(), |i: int| run_report_line(tests[i].spec_name(), tests[i].spec_passes()))
}

/// Runs every test of the list in order and reports each verdict. The
/// exit code is `Success` exactly when every test passes.
pub fn test_runner<T: Testable>(tests: &Vec<T>) -> (r: (Vec<String>, QemuExitCode))
    ensures
        r.0.deep_view() == seq![runner_header(tests@.len())] + runner_lines(tests@),
        r.1 == QemuExitCode::Success <==> (forall|i: int|
            0 <= i < tests@.len() ==> tests@[i].spec_passes()),
{
    let mut report: Vec<String> = Vec::new();
    let mut header = String::from_str("Running ");
    let count = u64_to_decimal(tests.len() as u64);
    header.append(count.as_str());
    header.append(" tests");
    report.push(header);

    let mut all_passed = true;
    let mut i: usize = 0;
    while i < tests.len()
        invariant
            i <= tests@.len(),
            report@.len() == i + 1,
            report@[0]@ == runner_header(tests@.len()),
            forall|j: int| 1 <= j <= i ==> #[trigger] report@[j]@ == runner_lines(tests@)[j - 1],
            all_passed <==> (forall|j: int| 0 <= j < i ==> tests@[j].spec_passes()),
        decreases tests@.len() - i,
    {
        let test = &tests[i];
        let passed = test.run();
        let mut line = test.name();
        if passed {
            line.append("... [ok]");
        } else {
            line.append("... [failed]");
            all_passed = false;
        }
        proof {
            assert(line@ == run_report_line(
                tests@[i as int].spec_name(),
                tests@[i as int].spec_passes(),
            ));
        }
        report.push(line);
        i = i + 1;
    }
    proof {
        assert(report.deep_view() =~~= seq![runner_header(tests@.len())] + runner_lines(tests@));
    }
    let code = if all_passed {
        QemuExitCode::Success
    } else {
        QemuExitCode::Failed
    };
    (report, code)
}

/// The report owed when a test panics: the failure marker and the panic
/// description, with the failure exit code. The host shell writes the
/// lines to the serial sink, signals the exit, and parks the CPU.
pub fn test_panic_handler(message: &str) -> (r: (Vec<String>, QemuExitCode))
    ensures
        r.0.deep_view() == seq!["[failed]"@, "Error: "@ + message@],
        r.1 == QemuExitCode::Failed,
{
    let mut report: Vec<String> = Vec::new();
    report.push(String::from_str("[failed]"));
    let mut error_line = String::from_str("Error: ");
    error_line.append(message);
    report.push(error_line);
    proof {
        assert(report.deep_view() =~~= seq!["[failed]"@, "Error: "@ + message@]);
    }
    (report, QemuExitCode::Failed)
}

} // verus!
