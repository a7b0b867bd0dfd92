//! Interrupt descriptor table, the chained interrupt-controller pair, and
//! the reaction to every trap vector.
//!
//! The table holds 256 gate descriptors; only vectors with a registered
//! handler are present, and the double-fault gate alone carries the
//! alternate-stack slot established by the descriptor-table manager. The
//! two cascaded legacy controllers are remapped past the 32 reserved
//! exception vectors; programming them and acknowledging their interrupts
//! are sequences of port writes, stated here as plain values that the
//! unverified host shell performs in order.

use vstd::prelude::*;
use vstd::string::StringExecFns;

use crate::gdt::DOUBLE_FAULT_IST_INDEX;
use crate::numfmt::spec_hex;
use crate::numfmt::u64_to_hex;

verus! {

/// Vector of the breakpoint trap.
pub const BREAKPOINT_VECTOR: u8 = 3;

/// Vector of the double fault.
pub const DOUBLE_FAULT_VECTOR: u8 = 8;

/// Vector of the page fault.
pub const PAGE_FAULT_VECTOR: u8 = 14;

/// Vector offset of the first controller: right past the 32 reserved
/// exception vectors.
pub const PIC_1_OFFSET: u8 = 32;

/// Vector offset of the second controller: right past the first's range.
pub const PIC_2_OFFSET: u8 = 40;

/// Vector of the timer tick: line zero of the first controller.
pub const TIMER_VECTOR: u8 = PIC_1_OFFSET;

/// Vector of the keyboard: line one of the first controller.
pub const KEYBOARD_VECTOR: u8 = PIC_1_OFFSET + 1;

/// Command port of the first controller.
pub const PIC_1_COMMAND_PORT: u16 = 0x20;

/// Data port of the first controller.
pub const PIC_1_DATA_PORT: u16 = 0x21;

/// Command port of the second controller.
pub const PIC_2_COMMAND_PORT: u16 = 0xa0;

/// Data port of the second controller.
pub const PIC_2_DATA_PORT: u16 = 0xa1;

/// Data port of the keyboard controller, holding the scan code.
pub const KEYBOARD_DATA_PORT: u16 = 0x60;

/// The end-of-interrupt command byte.
pub const EOI_COMMAND: u8 = 0x20;

/// Interrupt mask of the first controller once initialized: every line
/// masked but the timer (line zero) and the keyboard (line one).
pub const PIC_1_INITIAL_MASK: u8 = 0xfc;

/// Interrupt mask of the second controller once initialized: no handler
/// is registered for its lines, so every line stays masked.
pub const PIC_2_INITIAL_MASK: u8 = 0xff;

/// One write of a byte to an input/output port: the unit of work the
/// unverified host shell performs against the controllers.
#[derive(Debug, Clone, Copy, PartialEq, Eq, Structural)]
pub struct PortOp {
    pub port: u16,
    pub value: u8,
}

/// One of the two cascaded controllers: its programmed vector offset and
/// its eight-bit interrupt mask (a set bit masks the line).
#[derive(Debug, Clone, Copy, PartialEq, Eq, Structural)]
pub struct Pic {
    pub offset: u8,
    pub mask: u8,
}

/// The pair of chained controllers.
#[derive(Debug, Clone, Copy, PartialEq, Eq, Structural)]
pub struct ChainedPics {
    pub primary: Pic,
    pub secondary: Pic,
}

/// The command-word sequence that programs both controllers: reset each,
/// set the vector offsets, wire the cascade, select the legacy mode, then
/// install the masks.
pub open spec fn pic_init_sequence(offset1: u8, offset2: u8) -> Seq<PortOp> {
    seq![
        PortOp { port: PIC_1_COMMAND_PORT, value: 0x11 },
        PortOp { port: PIC_2_COMMAND_PORT, value: 0x11 },
        PortOp { port: PIC_1_DATA_PORT, value: offset1 },
        PortOp { port: PIC_2_DATA_PORT, value: offset2 },
        PortOp { port: PIC_1_DATA_PORT, value: 4 },
        PortOp { port: PIC_2_DATA_PORT, value: 2 },
        PortOp { port: PIC_1_DATA_PORT, value: 1 },
        PortOp { port: PIC_2_DATA_PORT, value: 1 },
        PortOp { port: PIC_1_DATA_PORT, value: PIC_1_INITIAL_MASK },
        PortOp { port: PIC_2_DATA_PORT, value: PIC_2_INITIAL_MASK },
    ]
}

impl ChainedPics {
    /// The two vector ranges are contiguous and land past the 32 reserved
    /// exception vectors, so they can never collide with a CPU exception
    /// nor with each other.
    pub open spec fn offsets_valid(self) -> bool {
        &&& self.primary.offset >= PIC_1_OFFSET
        &&& self.secondary.offset == self.primary.offset + 8
        &&& self.primary.offset + 16 <= 256
    }

    /// The conventional configuration: vectors 32 through 47.
    pub open spec fn standard_offsets(self) -> bool {
        &&& self.primary.offset == PIC_1_OFFSET
        &&& self.secondary.offset == PIC_2_OFFSET
    }

    /// Whether the first controller owns this vector.
    pub open spec fn primary_handles(self, vector: u8) -> bool {
        self.primary.offset <= vector < self.primary.offset + 8
    }

    /// Whether the second controller owns this vector.
    pub open spec fn secondary_handles(self, vector: u8) -> bool {
        self.secondary.offset <= vector < self.secondary.offset + 8
    }

    /// Whether either controller owns this vector.
    pub open spec fn spec_handles(self, vector: u8) -> bool {
        self.primary_handles(vector) || self.secondary_handles(vector)
    }

    /// The acknowledgment a handler owes for this vector: the second
    /// controller, when it raised the interrupt, and always the first,
    /// which drives the cascade.
    pub open spec fn eoi_sequence(self, vector: u8) -> Seq<PortOp> {
        if self.secondary_handles(vector) {
            seq![
                PortOp { port: PIC_2_COMMAND_PORT, value: EOI_COMMAND },
                PortOp { port: PIC_1_COMMAND_PORT, value: EOI_COMMAND },
            ]
        } else {
            seq![PortOp { port: PIC_1_COMMAND_PORT, value: EOI_COMMAND }]
        }
    }

    /// A fresh pair configured for the given contiguous offsets, with
    /// every line masked until the pair is initialized.
    pub fn new(offset1: u8, offset2: u8) -> (r: ChainedPics)
        requires
            offset1 >= PIC_1_OFFSET,
            offset2 == offset1 + 8,
            offset1 + 16 <= 256,
        ensures
            r.offsets_valid(),
            r.primary.offset == offset1,
            r.secondary.offset == offset2,
            r.primary.mask == 0xff,
            r.secondary.mask == 0xff,
    {
        ChainedPics {
            primary: Pic { offset: offset1, mask: 0xff },
            secondary: Pic { offset: offset2, mask: 0xff },
        }
    }

    /// Remaps both controllers to their configured offsets and unmasks
    /// exactly the lines wired to registered handlers — the timer and the
    /// keyboard on the first controller — leaving every other line
    /// masked. Returns the port writes the host shell must issue, in
    /// order, to program the hardware accordingly.
    pub fn initialize(&mut self) -> (ops: Vec<PortOp>)
        requires
            old(self).offsets_valid(),
        ensures
            final(self).offsets_valid(),
            final(self).primary.offset == old(self).primary.offset,
            final(self).secondary.offset == old(self).secondary.offset,
            final(self).primary.mask == PIC_1_INITIAL_MASK,
            final(self).secondary.mask == PIC_2_INITIAL_MASK,
            ops@ == pic_init_sequence(old(self).primary.offset, old(self).secondary.offset),
    {
        self.primary.mask = PIC_1_INITIAL_MASK;
        self.secondary.mask = PIC_2_INITIAL_MASK;
        let mut ops: Vec<PortOp> = Vec::new();
        ops.push(PortOp { port: PIC_1_COMMAND_PORT, value: 0x11 });
        ops.push(PortOp { port: PIC_2_COMMAND_PORT, value: 0x11 });
        ops.push(PortOp { port: PIC_1_DATA_PORT, value: self.primary.offset });
        ops.push(PortOp { port: PIC_2_DATA_PORT, value: self.secondary.offset });
        ops.push(PortOp { port: PIC_1_DATA_PORT, value: 4 });
        ops.push(PortOp { port: PIC_2_DATA_PORT, value: 2 });
        ops.push(PortOp { port: PIC_1_DATA_PORT, value: 1 });
        ops.push(PortOp { port: PIC_2_DATA_PORT, value: 1 });
        ops.push(PortOp { port: PIC_1_DATA_PORT, value: PIC_1_INITIAL_MASK });
        ops.push(PortOp { port: PIC_2_DATA_PORT, value: PIC_2_INITIAL_MASK });
        proof {
            assert(ops@ =~= pic_init_sequence(old(self).primary.offset, old(self).secondary.offset));
        }
        ops
    }

    /// Whether either controller owns this vector.
    pub fn handles_interrupt(&self, vector: u8) -> (r: bool)
        requires
            self.offsets_valid(),
        ensures
            r == self.spec_handles(vector),
    {
        (self.primary.offset <= vector && vector - self.primary.offset < 8) || (
        self.secondary.offset <= vector && vector - self.secondary.offset < 8)
    }

    /// The end-of-interrupt acknowledgment for this vector: the port
    /// writes the host shell must issue, exactly once per handled
    /// interrupt, before the handler returns.
    pub fn signal_end_of_interrupt(&self, vector: u8) -> (ops: Vec<PortOp>)
        requires
            self.offsets_valid(),
            self.spec_handles(vector),
        ensures
            ops@ == self.eoi_sequence(vector),
    {
        let mut ops: Vec<PortOp> = Vec::new();
        if self.secondary.offset <= vector && vector - self.secondary.offset < 8 {
            ops.push(PortOp { port: PIC_2_COMMAND_PORT, value: EOI_COMMAND });
        }
        ops.push(PortOp { port: PIC_1_COMMAND_PORT, value: EOI_COMMAND });
        proof {
            assert(ops@ =~= self.eoi_sequence(vector));
        }
        ops
    }
}

/// The vector ranges of a valid pair never overlap, and both sit past
/// every reserved CPU exception vector.
pub proof fn lemma_pic_ranges_disjoint(pics: ChainedPics)
    requires
        pics.offsets_valid(),
    ensures
        forall|v: u8| !(pics.primary_handles(v) && pics.secondary_handles(v)),
        forall|v: u8| #[trigger] pics.spec_handles(v) ==> v >= 32,
{
}

/// The routine behind a present gate descriptor.
#[derive(Debug, Clone, Copy, PartialEq, Eq, Structural)]
pub enum HandlerKind {
    Breakpoint,
    DoubleFault,
    PageFault,
    Timer,
    Keyboard,
}

/// The handler registered for a vector, if any: the closed set this
/// kernel installs. Every other vector stays absent.
pub open spec fn registered_handler(vector: u8) -> Option<HandlerKind> {
    if vector == BREAKPOINT_VECTOR {
        Some(HandlerKind::Breakpoint)
    } else if vector == DOUBLE_FAULT_VECTOR {
        Some(HandlerKind::DoubleFault)
    } else if vector == PAGE_FAULT_VECTOR {
        Some(HandlerKind::PageFault)
    } else if vector == TIMER_VECTOR {
        Some(HandlerKind::Timer)
    } else if vector == KEYBOARD_VECTOR {
        Some(HandlerKind::Keyboard)
    } else {
        None
    }
}

/// One gate descriptor: the handler it points at (absent when none is
/// registered), the code-segment selector the handler runs under, and the
/// optional alternate-stack slot.
#[derive(Debug, Clone, Copy, PartialEq, Eq, Structural)]
pub struct GateDescriptor {
    pub handler: Option<HandlerKind>,
    pub selector: u16,
    pub stack_table_index: Option<u16>,
}

impl GateDescriptor {
    /// A gate is present exactly when a handler is registered for it.
    pub open spec fn is_present(self) -> bool {
        self.handler is Some
    }
}

/// The 256-entry table mapping each trap vector to its gate descriptor.
/// Built once, loaded once, immutable thereafter.
pub struct InterruptDescriptorTable {
    entries: Vec<GateDescriptor>,
}

impl InterruptDescriptorTable {
    /// The descriptor of each vector.
    pub closed spec fn gates(self) -> Seq<GateDescriptor> {
        self.entries@
    }

    /// The table holds one gate per vector.
    pub open spec fn wf(self) -> bool {
        self.gates().len() == 256
    }

    /// Whether a handler is registered for this vector.
    pub open spec fn spec_registered(self, vector: u8) -> bool {
        self.gates()[vector as int].is_present()
    }

    /// A fully built table: each vector carries exactly its registered
    /// handler; every present gate runs under the given code-segment
    /// selector; and the double-fault gate alone switches to the
    /// dedicated alternate stack.
    pub open spec fn loaded_with(self, code_selector: u16) -> bool {
        &&& self.wf()
        &&& forall|v: u8| #[trigger] self.gates()[v as int].handler == registered_handler(v)
        &&& forall|v: u8|
            registered_handler(v) is Some ==> #[trigger] self.gates()[v as int].selector
                == code_selector
        &&& forall|v: u8|
            #[trigger] self.gates()[v as int].stack_table_index == (if v == DOUBLE_FAULT_VECTOR {
                Some(DOUBLE_FAULT_IST_INDEX)
            } else {
                None::<u16>
            })
    }

    /// An empty table: every gate absent.
    pub fn new() -> (r: InterruptDescriptorTable)
        ensures
            r.wf(),
            forall|v: u8|
                #[trigger] r.gates()[v as int] == (GateDescriptor {
                    handler: None,
                    selector: 0,
                    stack_table_index: None,
                }),
    {
        let mut entries: Vec<GateDescriptor> = Vec::new();
        let absent = GateDescriptor { handler: None, selector: 0, stack_table_index: None };
        let mut i: usize = 0;
        while i < 256
            invariant
                i <= 256,
                entries@.len() == i,
                absent == (GateDescriptor { handler: None, selector: 0, stack_table_index: None }),
                forall|j: int| 0 <= j < i ==> entries@[j] == absent,
            decreases 256 - i,
        {
            entries.push(absent);
            i = i + 1;
        }
        InterruptDescriptorTable { entries }
    }

    /// Registers one handler: marks its descriptor present, points it at
    /// the routine, and sets its selector and optional alternate-stack slot.
    pub fn set_gate(
        &mut self,
        vector: u8,
        kind: HandlerKind,
        selector: u16,
        stack_table_index: Option<u16>,
    )
        requires
            old(self).wf(),
        ensures
            final(self).wf(),
            final(self).gates() == old(self).gates().update(
                vector as int,
                GateDescriptor { handler: Some(kind), selector, stack_table_index },
            ),
    {
        self.entries.set(
            vector as usize,
            GateDescriptor { handler: Some(kind), selector, stack_table_index },
        );
    }

    /// Reads one vector's descriptor.
    pub fn gate(&self, vector: u8) -> (r: GateDescriptor)
        requires
            self.wf(),
        ensures
            r == self.gates()[vector as int],
    {
        self.entries[vector as usize]
    }

    /// Builds the full table for the given code-segment selector and
    /// hands it to the host shell to load: every registered handler gets
    /// its gate, the double-fault gate carries the alternate-stack slot
    /// established at descriptor-table build time, and every other vector
    /// stays absent, so a stray trap can never be silently resumed.
    pub fn build_and_load(code_selector: u16) -> (r: InterruptDescriptorTable)
        ensures
            r.loaded_with(code_selector),
    {
        let mut idt = InterruptDescriptorTable::new();
        idt.set_gate(BREAKPOINT_VECTOR, HandlerKind::Breakpoint, code_selector, None);
        idt.set_gate(
            DOUBLE_FAULT_VECTOR,
            HandlerKind::DoubleFault,
            code_selector,
            Some(DOUBLE_FAULT_IST_INDEX),
        );
        idt.set_gate(PAGE_FAULT_VECTOR, HandlerKind::PageFault, code_selector, None);
        idt.set_gate(TIMER_VECTOR, HandlerKind::Timer, code_selector, None);
        idt.set_gate(KEYBOARD_VECTOR, HandlerKind::Keyboard, code_selector, None);
        idt
    }
}

/// The state the CPU pushes when it vectors into a handler.
#[derive(Debug, Clone, Copy, PartialEq, Eq, Structural)]
pub struct TrapFrame {
    pub instruction_pointer: u64,
    pub cpu_flags: u64,
    pub stack_pointer: u64,
}

/// Everything a single trap delivers: the pushed frame, and — meaningful
/// only for the faults that carry them — the faulting address and the
/// error code.
#[derive(Debug, Clone, Copy, PartialEq, Eq, Structural)]
pub struct TrapInfo {
    pub frame: TrapFrame,
    pub fault_address: u64,
    pub error_code: u64,
}

/// How the processor leaves a trap: return to the saved instruction
/// pointer, halt permanently, or — for a trap into an absent gate —
/// escalate to a system reset. Only `Resume` continues execution.
#[derive(Debug, Clone, Copy, PartialEq, Eq, Structural)]
pub enum TrapOutcome {
    Resume { resume_at: u64 },
    Halt,
    SystemReset,
}

/// The full reaction to one trap: the outcome, the diagnostic lines owed
/// to the output sink, the end-of-interrupt writes owed to the
/// controllers, and the port the handler must read one byte from first,
/// if any.
pub struct TrapResponse {
    pub outcome: TrapOutcome,
    pub log: Vec<String>,
    pub eoi: Vec<PortOp>,
    pub read_port: Option<u16>,
}

/// The two diagnostic lines describing a pushed frame.
pub open spec fn frame_log(frame: TrapFrame) -> Seq<Seq<char>> {
    seq![
        "instruction pointer: 0x"@ + spec_hex(frame.instruction_pointer as nat),
        "cpu flags: 0x"@ + spec_hex(frame.cpu_flags as nat),
    ]
}

/// The diagnostic lines of the breakpoint handler.
pub open spec fn breakpoint_log(frame: TrapFrame) -> Seq<Seq<char>> {
    seq!["EXCEPTION: BREAKPOINT"@] + frame_log(frame)
}

/// The diagnostic lines of the double-fault handler.
pub open spec fn double_fault_log(frame: TrapFrame, error_code: u64) -> Seq<Seq<char>> {
    seq!["EXCEPTION: DOUBLE FAULT"@, "error code: 0x"@ + spec_hex(error_code as nat)]
        + frame_log(frame)
}

/// What a page-fault error code says about the violated access: whether
/// the page was absent or protected, and whether the access was a write.
pub open spec fn fault_cause(error_code: u64) -> Seq<char> {
    let kind = if error_code & 1 == 0 {
        "page not present"@
    } else {
        "protection violation"@
    };
    let access = if error_code & 2 == 0 {
        "read"@
    } else {
        "write"@
    };
    kind + " on "@ + access
}

/// The diagnostic lines of the page-fault handler.
pub open spec fn page_fault_log(frame: TrapFrame, fault_address: u64, error_code: u64) -> Seq<
    Seq<char>,
> {
    seq![
        "EXCEPTION: PAGE FAULT"@,
        "accessed address: 0x"@ + spec_hex(fault_address as nat),
        "error code: 0x"@ + spec_hex(error_code as nat),
        "cause: "@ + fault_cause(error_code),
    ] + frame_log(frame)
}

/// Renders the two frame lines.
fn push_frame_log(lines: &mut Vec<String>, frame: &TrapFrame)
    ensures
        final(lines).deep_view() == old(lines).deep_view() + frame_log(*frame),
{
    let mut ip_line = String::from_str("instruction pointer: 0x");
    let ip_hex = u64_to_hex(frame.instruction_pointer);
    ip_line.append(ip_hex.as_str());
    lines.push(ip_line);
    let mut fl_line = String::from_str("cpu flags: 0x");
    let fl_hex = u64_to_hex(frame.cpu_flags);
    fl_line.append(fl_hex.as_str());
    lines.push(fl_line);
    proof {
        assert(lines.deep_view() =~~= old(lines).deep_view() + frame_log(*frame));
    }
}

/// Breakpoint: a recoverable trap. Logs the pushed frame and resumes at
/// the saved instruction pointer — the instruction right after the
/// breakpoint — touching neither table and acknowledging nothing.
pub fn breakpoint_handler(frame: &TrapFrame) -> (r: TrapResponse)
    ensures
        r.outcome == (TrapOutcome::Resume { resume_at: frame.instruction_pointer }),
        r.log.deep_view() == breakpoint_log(*frame),
        r.eoi@ == Seq::<PortOp>::empty(),
        r.read_port is None,
{
    let mut log: Vec<String> = Vec::new();
    log.push(String::from_str("EXCEPTION: BREAKPOINT"));
    push_frame_log(&mut log, frame);
    proof {
        assert(log.deep_view() =~~= breakpoint_log(*frame));
    }
    TrapResponse {
        outcome: TrapOutcome::Resume { resume_at: frame.instruction_pointer },
        log,
        eoi: Vec::new(),
        read_port: None,
    }
}

/// Double fault: the terminal safety net, running on the dedicated
/// alternate stack. Logs the frame and halts the processor permanently;
/// it never resumes.
pub fn double_fault_handler(frame: &TrapFrame, error_code: u64) -> (r: TrapResponse)
    ensures
        r.outcome == TrapOutcome::Halt,
        r.log.deep_view() == double_fault_log(*frame, error_code),
        r.eoi@ == Seq::<PortOp>::empty(),
        r.read_port is None,
{
    let mut log: Vec<String> = Vec::new();
    log.push(String::from_str("EXCEPTION: DOUBLE FAULT"));
    let mut ec_line = String::from_str("error code: 0x");
    let ec_hex = u64_to_hex(error_code);
    ec_line.append(ec_hex.as_str());
    log.push(ec_line);
    push_frame_log(&mut log, frame);
    proof {
        assert(log.deep_view() =~~= double_fault_log(*frame, error_code));
    }
    TrapResponse { outcome: TrapOutcome::Halt, log, eoi: Vec::new(), read_port: None }
}

/// Page fault: fatal in this kernel, which implements no demand paging.
/// Logs the faulting address and the access-violation code, then halts.
pub fn page_fault_handler(frame: &TrapFrame, fault_address: u64, error_code: u64) -> (r:
    TrapResponse)
    ensures
        r.outcome == TrapOutcome::Halt,
        r.log.deep_view() == page_fault_log(*frame, fault_address, error_code),
        r.eoi@ == Seq::<PortOp>::empty(),
        r.read_port is None,
{
    let mut log: Vec<String> = Vec::new();
    log.push(String::from_str("EXCEPTION: PAGE FAULT"));
    let mut addr_line = String::from_str("accessed address: 0x");
    let addr_hex = u64_to_hex(fault_address);
    addr_line.append(addr_hex.as_str());
    log.push(addr_line);
    let mut ec_line = String::from_str("error code: 0x");
    let ec_hex = u64_to_hex(error_code);
    ec_line.append(ec_hex.as_str());
    log.push(ec_line);
    let mut cause_line = String::from_str("cause: ");
    if error_code & 1 == 0 {
        cause_line.append("page not present");
    } else {
        cause_line.append("protection violation");
    }
    cause_line.append(" on ");
    if error_code & 2 == 0 {
        cause_line.append("read");
    } else {
        cause_line.append("write");
    }
    log.push(cause_line);
    push_frame_log(&mut log, frame);
    proof {
        assert(log.deep_view() =~~= page_fault_log(*frame, fault_address, error_code));
    }
    TrapResponse { outcome: TrapOutcome::Halt, log, eoi: Vec::new(), read_port: None }
}

/// Timer tick: no housekeeping beyond the end-of-interrupt owed to the
/// first controller, then the interrupted code resumes. Omitting the
/// acknowledgment would starve every interrupt at or below its priority.
pub fn timer_interrupt_handler(pics: &ChainedPics, frame: &TrapFrame) -> (r: TrapResponse)
    requires
        pics.standard_offsets(),
    ensures
        r.outcome == (TrapOutcome::Resume { resume_at: frame.instruction_pointer }),
        r.log.deep_view() == Seq::<Seq<char>>::empty(),
        r.eoi@ == pics.eoi_sequence(TIMER_VECTOR),
        r.read_port is None,
{
    let eoi = pics.signal_end_of_interrupt(TIMER_VECTOR);
    TrapResponse {
        outcome: TrapOutcome::Resume { resume_at: frame.instruction_pointer },
        log: Vec::new(),
        eoi,
        read_port: None,
    }
}

/// Keyboard: reads one scan code from the device port — the read the
/// host shell performs — ignores it, acknowledges the first controller,
/// and resumes.
pub fn keyboard_interrupt_handler(pics: &ChainedPics, frame: &TrapFrame) -> (r: TrapResponse)
    requires
        pics.standard_offsets(),
    ensures
        r.outcome == (TrapOutcome::Resume { resume_at: frame.instruction_pointer }),
        r.log.deep_view() == Seq::<Seq<char>>::empty(),
        r.eoi@ == pics.eoi_sequence(KEYBOARD_VECTOR),
        r.read_port == Some(KEYBOARD_DATA_PORT),
{
    let eoi = pics.signal_end_of_interrupt(KEYBOARD_VECTOR);
    TrapResponse {
        outcome: TrapOutcome::Resume { resume_at: frame.instruction_pointer },
        log: Vec::new(),
        eoi,
        read_port: Some(KEYBOARD_DATA_PORT),
    }
}

/// The outcome owed for a trap: resume only for the breakpoint and the
/// two hardware interrupts; halt for the fatal faults; and for every
/// unregistered vector, escalation to a system reset — such a trap never
/// resumes execution.
pub open spec fn trap_outcome(vector: u8, info: TrapInfo) -> TrapOutcome {
    match registered_handler(vector) {
        None => TrapOutcome::SystemReset,
        Some(HandlerKind::Breakpoint) => TrapOutcome::Resume {
            resume_at: info.frame.instruction_pointer,
        },
        Some(HandlerKind::DoubleFault) => TrapOutcome::Halt,
        Some(HandlerKind::PageFault) => TrapOutcome::Halt,
        Some(HandlerKind::Timer) => TrapOutcome::Resume {
            resume_at: info.frame.instruction_pointer,
        },
        Some(HandlerKind::Keyboard) => TrapOutcome::Resume {
            resume_at: info.frame.instruction_pointer,
        },
    }
}

/// The diagnostic lines owed for a trap.
pub open spec fn trap_log(vector: u8, info: TrapInfo) -> Seq<Seq<char>> {
    match registered_handler(vector) {
        None => seq!["EXCEPTION: UNHANDLED VECTOR"@],
        Some(HandlerKind::Breakpoint) => breakpoint_log(info.frame),
        Some(HandlerKind::DoubleFault) => double_fault_log(info.frame, info.error_code),
        Some(HandlerKind::PageFault) => page_fault_log(
            info.frame,
            info.fault_address,
            info.error_code,
        ),
        Some(HandlerKind::Timer) => Seq::empty(),
        Some(HandlerKind::Keyboard) => Seq::empty(),
    }
}

/// The end-of-interrupt writes owed for a trap: exactly one
/// acknowledgment per hardware interrupt, none for exceptions.
pub open spec fn trap_eoi(pics: ChainedPics, vector: u8) -> Seq<PortOp> {
    match registered_handler(vector) {
        Some(HandlerKind::Timer) => pics.eoi_sequence(TIMER_VECTOR),
        Some(HandlerKind::Keyboard) => pics.eoi_sequence(KEYBOARD_VECTOR),
        _ => Seq::empty(),
    }
}

/// Vectors a trap to its handler: looks its descriptor up in the table
/// and
/// runs the registered routine. The table and the controller pair are
/// only borrowed, so no trap can alter either. A trap into an absent
/// gate yields `SystemReset`: it must never resume execution.
pub fn dispatch(
    idt: &InterruptDescriptorTable,
    pics: &ChainedPics,
    vector: u8,
    info: &TrapInfo,
) -> (r: TrapResponse)
    requires
        idt.wf(),
        forall|v: u8| #[trigger] idt.gates()[v as int].handler == registered_handler(v),
        pics.standard_offsets(),
    ensures
        r.outcome == trap_outcome(vector, *info),
        r.log.deep_view() == trap_log(vector, *info),
        r.eoi@ == trap_eoi(*pics, vector),
        r.read_port == (if registered_handler(vector) == Some(HandlerKind::Keyboard) {
            Some(KEYBOARD_DATA_PORT)
        } else {
            None::<u16>
        }),
{
    let gate = idt.gate(vector);
    match gate.handler {
        None => {
            let mut log: Vec<String> = Vec::new();
            log.push(String::from_str("EXCEPTION: UNHANDLED VECTOR"));
            proof {
                assert(log.deep_view() =~~= trap_log(vector, *info));
            }
            TrapResponse {
                outcome: TrapOutcome::SystemReset,
                log,
                eoi: Vec::new(),
                read_port: None,
            }
        },
        Some(HandlerKind::Breakpoint) => breakpoint_handler(&info.frame),
        Some(HandlerKind::DoubleFault) => double_fault_handler(&info.frame, info.error_code),
        Some(HandlerKind::PageFault) => page_fault_handler(
            &info.frame,
            info.fault_address,
            info.error_code,
        ),
        Some(HandlerKind::Timer) => timer_interrupt_handler(pics, &info.frame),
        Some(HandlerKind::Keyboard) => keyboard_interrupt_handler(pics, &info.frame),
    }
}

/// A trap into a vector with no registered handler escalates to a system
/// reset: it never resumes execution, so no partial state corruption can
/// go unnoticed.
pub proof fn lemma_unregistered_trap_never_resumes(vector: u8, info: TrapInfo)
    requires
        registered_handler(vector) is None,
    ensures
        trap_outcome(vector, info) is SystemReset,
        !(trap_outcome(vector, info) is Resume),
{
}

/// A breakpoint trap resumes at the saved instruction pointer — the
/// instruction right after the breakpoint — and owes no acknowledgment.
/// `dispatch` only borrows the descriptor table and the controller pair,
/// so the recovery alters neither: the trap is idempotent.
pub proof fn lemma_breakpoint_resumes_next_instruction(pics: ChainedPics, info: TrapInfo)
    ensures
        trap_outcome(BREAKPOINT_VECTOR, info) == (TrapOutcome::Resume {
            resume_at: info.frame.instruction_pointer,
        }),
        trap_eoi(pics, BREAKPOINT_VECTOR) == Seq::<PortOp>::empty(),
{
}

/// The acknowledgments owed by a run of traps, in total.
pub open spec fn trap_eoi_total(pics: ChainedPics, vectors: Seq<u8>) -> nat
    decreases vectors.len(),
{
    if vectors.len() == 0 {
        0
    } else {
        trap_eoi(pics, vectors.first()).len() + trap_eoi_total(pics, vectors.drop_first())
    }
}

/// Over any run of timer ticks, exactly one end-of-interrupt is owed and
/// issued per tick — none missed, none duplicated — and each one goes to
/// the first controller alone, which owns the timer line.
pub proof fn lemma_timer_ticks_acknowledged_exactly_once(pics: ChainedPics, ticks: Seq<u8>)
    requires
        pics.standard_offsets(),
        forall|i: int| 0 <= i < ticks.len() ==> ticks[i] == TIMER_VECTOR,
    ensures
        trap_eoi_total(pics, ticks) == ticks.len(),
        forall|i: int|
            0 <= i < ticks.len() ==> trap_eoi(pics, ticks[i]) =~= seq![
                PortOp { port: PIC_1_COMMAND_PORT, value: EOI_COMMAND },
            ],
    decreases ticks.len(),
{
    if ticks.len() > 0 {
        assert(ticks.first() == TIMER_VECTOR);
        assert(trap_eoi(pics, TIMER_VECTOR) =~= seq![
            PortOp { port: PIC_1_COMMAND_PORT, value: EOI_COMMAND },
        ]);
        assert(forall|i: int|
            0 <= i < ticks.drop_first().len() ==> ticks.drop_first()[i] == TIMER_VECTOR);
        lemma_timer_ticks_acknowledged_exactly_once(pics, ticks.drop_first());
    }
}

} // verus!
