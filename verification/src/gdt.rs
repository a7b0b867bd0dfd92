//! Global descriptor table and task state segment: the privileged-stack
//! safety net of the kernel.
//!
//! The table is built exactly once, as an owned value: a null descriptor,
//! the kernel code segment and the task state segment descriptor. The task
//! state segment populates a single interrupt-stack-table slot — the
//! dedicated double-fault stack — so that a fault raised on a corrupted
//! main stack can still be handled. Loading the finished table into the
//! CPU's descriptor-table register is a privileged instruction that the
//! unverified host shell performs; everything the load hands the CPU is
//! stated here.

use vstd::prelude::*;

verus! {

/// The interrupt-stack-table slot that holds the double-fault stack.
pub const DOUBLE_FAULT_IST_INDEX: u16 = 0;

/// Number of interrupt-stack-table slots in a task state segment.
pub const IST_SLOTS: usize = 7;

/// Size in bytes of the dedicated double-fault stack: a few 4 KiB pages.
pub const DOUBLE_FAULT_STACK_SIZE: u64 = 20480;

/// Access byte of a present, ring-zero, executable code segment.
pub const KERNEL_CODE_ACCESS: u8 = 0x9a;

/// Access byte of a present, ring-zero, available task state segment.
pub const TSS_ACCESS: u8 = 0x89;

/// What one descriptor of the table describes.
#[derive(Debug, Clone, Copy, PartialEq, Eq, Structural)]
pub enum SegmentKind {
    /// The mandatory first entry the CPU never uses.
    NullSegment,
    /// The kernel's code segment.
    KernelCode,
    /// The descriptor pointing at the task state segment.
    TaskState,
}

/// One segment descriptor: what it describes, and the base, limit and
/// access flags the CPU reads from it. Immutable once the table is loaded.
#[derive(Debug, Clone, Copy, PartialEq, Eq, Structural)]
pub struct SegmentDescriptor {
    pub kind: SegmentKind,
    pub base: u64,
    pub limit: u32,
    pub access: u8,
}

/// Task state segment: a fixed array of alternate stack tops indexed by
/// interrupt-stack-table slot. A slot holding zero is unpopulated.
pub struct TaskStateSegment {
    interrupt_stack_table: Vec<u64>,
}

impl TaskStateSegment {
    /// The alternate stack top of each slot; zero means no stack.
    pub closed spec fn slots(self) -> Seq<u64> {
        self.interrupt_stack_table@
    }

    /// The segment holds exactly the fixed number of slots.
    pub closed spec fn wf(self) -> bool {
        self.interrupt_stack_table@.len() == IST_SLOTS
    }

    /// Builds the task state segment with a single populated slot: the
    /// double-fault stack, whose top is one past the end of the given
    /// stack region. Every other slot stays unpopulated.
    pub fn with_double_fault_stack(stack_start: u64) -> (r: TaskStateSegment)
        requires
            stack_start + DOUBLE_FAULT_STACK_SIZE <= u64::MAX,
            stack_start > 0,
        ensures
            r.wf(),
            r.slots()[DOUBLE_FAULT_IST_INDEX as int] == stack_start + DOUBLE_FAULT_STACK_SIZE,
            forall|i: int|
                0 <= i < IST_SLOTS && i != DOUBLE_FAULT_IST_INDEX ==> r.slots()[i] == 0,
    {
        let mut interrupt_stack_table: Vec<u64> = Vec::new();
        let mut i: usize = 0;
        while i < IST_SLOTS
            invariant
                i <= IST_SLOTS,
                interrupt_stack_table@.len() == i,
                forall|j: int| 0 <= j < i ==> interrupt_stack_table@[j] == 0,
            decreases IST_SLOTS - i,
        {
            interrupt_stack_table.push(0);
            i = i + 1;
        }
        interrupt_stack_table.set(DOUBLE_FAULT_IST_INDEX as usize, stack_start + DOUBLE_FAULT_STACK_SIZE);
        TaskStateSegment { interrupt_stack_table }
    }

    /// Reads the alternate stack top of one slot.
    pub fn stack_top(&self, slot: usize) -> (r: u64)
        requires
            self.wf(),
            slot < IST_SLOTS,
        ensures
            r == self.slots()[slot as int],
    {
        self.interrupt_stack_table[slot]
    }
}

/// The global descriptor table together with the task state segment it
/// points at and the selectors the CPU must be reloaded with. Built once
/// at initialization and never rebuilt.
pub struct GlobalDescriptorTable {
    descriptors: Vec<SegmentDescriptor>,
    tss: TaskStateSegment,
    code_selector: u16,
    tss_selector: u16,
}

impl GlobalDescriptorTable {
    /// The ordered descriptors of the table.
    pub closed spec fn entries(self) -> Seq<SegmentDescriptor> {
        self.descriptors@
    }

    /// The task state segment the table's last descriptor points at.
    pub closed spec fn task_segment(self) -> TaskStateSegment {
        self.tss
    }

    /// The selector of the kernel code segment: descriptor index one,
    /// ring zero.
    pub closed spec fn spec_code_selector(self) -> u16 {
        self.code_selector
    }

    /// The selector of the task state segment: descriptor index two,
    /// ring zero.
    pub closed spec fn spec_tss_selector(self) -> u16 {
        self.tss_selector
    }

    /// A well-formed table: null descriptor first, then the kernel code
    /// segment, then the task state segment descriptor; the selectors
    /// point at the latter two; the task state segment carries the
    /// double-fault stack in its dedicated slot.
    pub open spec fn wf(self) -> bool {
        &&& self.entries().len() == 3
        &&& self.entries()[0].kind == SegmentKind::NullSegment
        &&& self.entries()[1] == (SegmentDescriptor {
            kind: SegmentKind::KernelCode,
            base: 0,
            limit: 0xfffff,
            access: KERNEL_CODE_ACCESS,
        })
        &&& self.entries()[2].kind == SegmentKind::TaskState
        &&& self.entries()[2].access == TSS_ACCESS
        &&& self.spec_code_selector() == 8
        &&& self.spec_tss_selector() == 16
        &&& self.task_segment().wf()
        &&& self.task_segment().slots()[DOUBLE_FAULT_IST_INDEX as int] > 0
    }

    /// Builds the table: one kernel code segment and one task state
    /// segment descriptor whose segment carries the double-fault stack in
    /// the dedicated interrupt-stack-table slot. The host shell then loads
    /// the table and reloads the code-segment and task registers with the
    /// returned selectors; nothing is mutated afterwards.
    pub fn build_and_load(double_fault_stack_start: u64, tss_base: u64) -> (r:
        GlobalDescriptorTable)
        requires
            double_fault_stack_start > 0,
            double_fault_stack_start + DOUBLE_FAULT_STACK_SIZE <= u64::MAX,
        ensures
            r.wf(),
            r.task_segment().slots()[DOUBLE_FAULT_IST_INDEX as int] == double_fault_stack_start
                + DOUBLE_FAULT_STACK_SIZE,
            forall|i: int|
                0 <= i < IST_SLOTS && i != DOUBLE_FAULT_IST_INDEX ==> r.task_segment().slots()[i]
                    == 0,
            r.entries()[2].base == tss_base,
    {
        let tss = TaskStateSegment::with_double_fault_stack(double_fault_stack_start);
        let mut descriptors: Vec<SegmentDescriptor> = Vec::new();
        descriptors.push(SegmentDescriptor {
            kind: SegmentKind::NullSegment,
            base: 0,
            limit: 0,
            access: 0,
        });
        descriptors.push(SegmentDescriptor {
            kind: SegmentKind::KernelCode,
            base: 0,
            limit: 0xfffff,
            access: KERNEL_CODE_ACCESS,
        });
        descriptors.push(SegmentDescriptor {
            kind: SegmentKind::TaskState,
            base: tss_base,
            limit: 0x67,
            access: TSS_ACCESS,
        });
        GlobalDescriptorTable { descriptors, tss, code_selector: 8, tss_selector: 16 }
    }

    /// The number of descriptors in the table.
    pub fn descriptor_count(&self) -> (r: usize)
        ensures
            r == self.entries().len(),
    {
        self.descriptors.len()
    }

    /// Reads one descriptor of the table.
    pub fn descriptor(&self, index: usize) -> (r: SegmentDescriptor)
        requires
            index < self.entries().len(),
        ensures
            r == self.entries()[index as int],
    {
        self.descriptors[index]
    }

    /// Reads the code-segment selector the CPU must be reloaded with.
    pub fn code_selector(&self) -> (r: u16)
        ensures
            r == self.spec_code_selector(),
    {
        self.code_selector
    }

    /// Reads the task-register selector the CPU must be reloaded with.
    pub fn tss_selector(&self) -> (r: u16)
        ensures
            r == self.spec_tss_selector(),
    {
        self.tss_selector
    }

    /// Reads the double-fault stack top out of the task state segment.
    pub fn double_fault_stack_top(&self) -> (r: u64)
        requires
            self.task_segment().wf(),
        ensures
            r == self.task_segment().slots()[DOUBLE_FAULT_IST_INDEX as int],
    {
        self.tss.stack_top(DOUBLE_FAULT_IST_INDEX as usize)
    }
}

} // verus!
