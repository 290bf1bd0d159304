//! The segment descriptor table and the task state with its emergency
//! stack.
//!
//! The table and the structure inside the task state are the `x86_64`
//! crate's own, in the layout the processor reads. Each function of that
//! crate that this module calls stands behind a private function whose
//! contract is assumed, not proved; what the calls are taken to do is said
//! over two names, `table_words` and `interrupt_stacks`.

use vstd::prelude::*;
use x86_64::structures::gdt::{Descriptor, GlobalDescriptorTable};
use x86_64::structures::tss::TaskStateSegment;
use x86_64::VirtAddr;
use crate::machine::Step;

verus! {

/// `x86_64::structures::gdt::GlobalDescriptorTable`, a table of up to
/// eight 64-bit words.
#[verifier::external_type_specification]
#[verifier::external_body]
pub struct ExGlobalDescriptorTable(x86_64::structures::gdt::GlobalDescriptorTable);

/// `x86_64::structures::tss::TaskStateSegment`.
#[verifier::external_type_specification]
#[verifier::external_body]
pub struct ExTaskStateSegment(x86_64::structures::tss::TaskStateSegment);

/// The words that a descriptor table holds, in order. The first is the
/// null descriptor.
pub uninterp spec fn table_words(table: GlobalDescriptorTable) -> Seq<u64>;

/// The seven stack pointers of a task state's interrupt stack table.
pub uninterp spec fn interrupt_stacks(tss: TaskStateSegment) -> Seq<u64>;

/// Number of words that a descriptor table can hold.
pub const TABLE_CAPACITY: usize = 8;

/// Number of entries in the interrupt stack table.
pub const INTERRUPT_STACKS: usize = 7;

/// Entry of the interrupt stack table that is reserved for the
/// double-fault handler.
pub const DOUBLE_FAULT_IST_INDEX: u16 = 0;

/// Size of the emergency stack in bytes.
pub const EMERGENCY_STACK_SIZE: u64 = 4096 * 5;

/// The descriptor of the 64-bit kernel code segment.
pub const KERNEL_CODE_SEGMENT: u64 = 0x00af_9b00_0000_ffff;

/// A handle to an entry of the descriptor table: the entry's index and
/// the privilege level requested for it.
#[derive(Debug, Clone, Copy, PartialEq, Eq, Structural)]
pub struct SegmentSelector {
    pub bits: u16,
}

impl SegmentSelector {
    /// The selector of entry `index` at privilege level `rpl`.
    pub open spec fn of(index: nat, rpl: nat) -> SegmentSelector
        recommends
            index < 8192,
            rpl < 4,
    {
        SegmentSelector { bits: (index * 8 + rpl) as u16 }
    }

    /// Index of the entry in the table.
    pub open spec fn spec_index(self) -> u16 {
        self.bits / 8
    }

    /// Requested privilege level, 0 to 3.
    pub open spec fn spec_rpl(self) -> u16 {
        self.bits % 4
    }

    /// Index of the entry in the table.
    #[verifier::when_used_as_spec(spec_index)]
    pub fn index(self) -> (index: u16)
        ensures
            index == self.spec_index(),
    {
        self.bits / 8
    }

    /// Requested privilege level, 0 to 3.
    #[verifier::when_used_as_spec(spec_rpl)]
    pub fn rpl(self) -> (rpl: u16)
        ensures
            rpl == self.spec_rpl(),
    {
        self.bits % 4
    }
}

/// A segment descriptor as the words it takes in the table.
#[derive(Debug, Clone, Copy, PartialEq, Eq, Structural)]
pub enum SegmentDescriptor {
    /// A code or data segment: one word.
    User(u64),
    /// A system segment, such as a task state: two words, low then high.
    System(u64, u64),
}

impl SegmentDescriptor {
    /// The words of the descriptor, in table order.
    pub open spec fn words(self) -> Seq<u64> {
        match self {
            SegmentDescriptor::User(bits) => seq![bits],
            SegmentDescriptor::System(low, high) => seq![low, high],
        }
    }

    /// The first word, which holds the flags.
    pub open spec fn low(self) -> u64 {
        match self {
            SegmentDescriptor::User(bits) => bits,
            SegmentDescriptor::System(low, _) => low,
        }
    }

    /// The descriptor privilege level: bits 45 and 46 of the first word.
    pub open spec fn privilege(self) -> u64 {
        (self.low() & 0x6000_0000_0000) >> 45
    }
}

/// Whether two words are the descriptor of a task state: present, of
/// type "available 64-bit task state", privilege level 0, with the limit
/// of a task state without an I/O map (0x67). The remaining bits are the
/// task state's address.
pub open spec fn is_task_state_descriptor(low: u64, high: u64) -> bool {
    &&& low & 0x00ff_ff00_0000_ffff == 0x0000_8900_0000_0067
    &&& high <= 0xffff_ffff
}

/// Whether a descriptor is the system descriptor of a task state.
pub open spec fn describes_task_state(descriptor: SegmentDescriptor) -> bool {
    match descriptor {
        SegmentDescriptor::User(_) => false,
        SegmentDescriptor::System(low, high) => is_task_state_descriptor(low, high),
    }
}

/// Whether an address is canonical: bits 47 to 63 are all equal.
pub open spec fn is_canonical(addr: u64) -> bool {
    addr < 0x0000_8000_0000_0000 || addr >= 0xffff_8000_0000_0000
}

/// The two selectors that the rest of the kernel needs.
#[derive(Debug, Clone, Copy, PartialEq, Eq, Structural)]
pub struct Selectors {
    pub code_selector: SegmentSelector,
    pub tss_selector: SegmentSelector,
}

/// `GlobalDescriptorTable::new`: a table that holds the null descriptor
/// and nothing else.
#[verifier::external_body]
fn empty_table() -> (table: GlobalDescriptorTable)
    ensures
        table_words(table) == seq![0u64],
{
    GlobalDescriptorTable::new()
}

/// `GlobalDescriptorTable::add_entry`: appends the descriptor's words and
/// returns the selector of its first word, which holds the word's index
/// above the descriptor's own privilege level. The table must have room,
/// or the call panics.
#[verifier::external_body]
fn add_entry(table: &mut GlobalDescriptorTable, entry: SegmentDescriptor) -> (selector:
    SegmentSelector)
    requires
        table_words(*old(table)).len() + entry.words().len() <= TABLE_CAPACITY,
    ensures
        table_words(*final(table)) == table_words(*old(table)) + entry.words(),
        selector == SegmentSelector::of(
            table_words(*old(table)).len(),
            entry.privilege() as nat,
        ),
{
    let descriptor = match entry {
        SegmentDescriptor::User(bits) => Descriptor::UserSegment(bits),
        SegmentDescriptor::System(low, high) => Descriptor::SystemSegment(low, high),
    };
    SegmentSelector { bits: table.add_entry(descriptor).0 }
}

/// `GlobalDescriptorTable::as_raw_slice`: the words of the table.
#[verifier::external_body]
fn raw_words(table: &GlobalDescriptorTable) -> (words: Vec<u64>)
    ensures
        words@ == table_words(*table),
{
    table.as_raw_slice().to_vec()
}

/// `Descriptor::kernel_code_segment`: the descriptor of a 64-bit code
/// segment for ring 0, one word whose value is fixed.
#[verifier::external_body]
fn kernel_code_segment() -> (descriptor: SegmentDescriptor)
    ensures
        descriptor == SegmentDescriptor::User(KERNEL_CODE_SEGMENT),
{
    match Descriptor::kernel_code_segment() {
        Descriptor::UserSegment(bits) => SegmentDescriptor::User(bits),
        Descriptor::SystemSegment(low, high) => SegmentDescriptor::System(low, high),
    }
}

/// `Descriptor::tss_segment`: the system descriptor that points to the
/// given task state. Which address it holds is not said; the other bits
/// are.
#[verifier::external_body]
fn tss_segment(tss: &'static TaskStateSegment) -> (descriptor: SegmentDescriptor)
    ensures
        describes_task_state(descriptor),
{
    match Descriptor::tss_segment(tss) {
        Descriptor::UserSegment(bits) => SegmentDescriptor::User(bits),
        Descriptor::SystemSegment(low, high) => SegmentDescriptor::System(low, high),
    }
}

/// `TaskStateSegment::new`: a task state whose interrupt stack table is
/// all zero.
#[verifier::external_body]
fn empty_task_state() -> (tss: TaskStateSegment)
    ensures
        interrupt_stacks(tss) == Seq::new(INTERRUPT_STACKS as nat, |i: int| 0u64),
{
    TaskStateSegment::new()
}

/// Stores a stack pointer in the interrupt stack table, through
/// `VirtAddr::new`, which keeps a canonical address as it is. Other
/// addresses are left out: the call extends the sign of some and panics
/// on the rest.
#[verifier::external_body]
fn set_interrupt_stack(tss: &mut TaskStateSegment, index: usize, top: u64)
    requires
        index < INTERRUPT_STACKS,
        is_canonical(top),
    ensures
        interrupt_stacks(*final(tss)) == interrupt_stacks(*old(tss)).update(index as int, top),
{
    tss.interrupt_stack_table[index] = VirtAddr::new(top);
}

/// Reads a stack pointer of the interrupt stack table, through
/// `VirtAddr::as_u64`.
#[verifier::external_body]
fn get_interrupt_stack(tss: &TaskStateSegment, index: usize) -> (top: u64)
    requires
        index < INTERRUPT_STACKS,
    ensures
        top == interrupt_stacks(*tss)[index as int],
{
    let table = tss.interrupt_stack_table;
    table[index].as_u64()
}

/// Whether `addr` is canonical.
pub fn canonical(addr: u64) -> (yes: bool)
    ensures
        yes == is_canonical(addr),
{
    addr < 0x0000_8000_0000_0000 || addr >= 0xffff_8000_0000_0000
}

/// The top of the emergency stack that starts at `stack_start`: its
/// highest address, since the stack grows downward. `None` if that
/// address does not exist or is not canonical.
pub open spec fn spec_emergency_stack_top(stack_start: u64) -> Option<u64> {
    if stack_start + EMERGENCY_STACK_SIZE <= u64::MAX && is_canonical(
        (stack_start + EMERGENCY_STACK_SIZE) as u64,
    ) {
        Some((stack_start + EMERGENCY_STACK_SIZE) as u64)
    } else {
        None
    }
}

/// The top of the emergency stack that starts at `stack_start`, if it
/// has one.
#[verifier::when_used_as_spec(spec_emergency_stack_top)]
pub fn emergency_stack_top(stack_start: u64) -> (top: Option<u64>)
    ensures
        top == spec_emergency_stack_top(stack_start),
{
    match stack_start.checked_add(EMERGENCY_STACK_SIZE) {
        Some(top) => if canonical(top) {
            Some(top)
        } else {
            None
        },
        None => None,
    }
}

/// The interrupt stack table of the kernel's task state: the entry that
/// is reserved for the double-fault handler holds the top of the
/// emergency stack, and every other entry is zero.
pub open spec fn emergency_stacks(stack_top: u64) -> Seq<u64> {
    Seq::new(INTERRUPT_STACKS as nat, |i: int| 0u64).update(
        DOUBLE_FAULT_IST_INDEX as int,
        stack_top,
    )
}

/// The task state of the kernel. It holds the processor's structure and
/// knows the emergency stack that the structure points to.
#[derive(Debug)]
pub struct TaskState {
    segment: TaskStateSegment,
    stack_top: u64,
}

impl TaskState {
    /// The interrupt stack table, entry by entry.
    pub closed spec fn stacks(&self) -> Seq<u64> {
        interrupt_stacks(self.segment)
    }

    /// The top of the emergency stack.
    pub closed spec fn stack_top(&self) -> u64 {
        self.stack_top
    }

    /// The task state is well formed: the emergency stack has a top, a
    /// canonical address above the stack's size, and the entry of the
    /// interrupt stack table that is reserved for the double-fault
    /// handler holds it. Every other entry is zero. This holds of every
    /// task state that a program holds.
    #[verifier::type_invariant]
    pub open spec fn wf(&self) -> bool {
        &&& is_canonical(self.stack_top())
        &&& self.stack_top() >= EMERGENCY_STACK_SIZE
        &&& self.stacks() == emergency_stacks(self.stack_top())
    }

    /// The task state for the emergency stack that starts at
    /// `stack_start`: the reserved entry of the interrupt stack table
    /// points to the top of that stack. `None` if the stack has no top to
    /// point to.
    pub fn new(stack_start: u64) -> (tss: Option<TaskState>)
        ensures
            tss is Some <==> emergency_stack_top(stack_start) is Some,
            tss matches Some(tss) ==> tss.wf() && Some(tss.stack_top()) == emergency_stack_top(
                stack_start,
            ),
    {
        match emergency_stack_top(stack_start) {
            Some(stack_top) => {
                let mut segment = empty_task_state();
                set_interrupt_stack(&mut segment, DOUBLE_FAULT_IST_INDEX as usize, stack_top);
                Some(TaskState { segment, stack_top })
            },
            None => None,
        }
    }

    /// The processor's structure.
    pub fn segment(&self) -> (segment: &TaskStateSegment)
        ensures
            interrupt_stacks(*segment) == self.stacks(),
    {
        &self.segment
    }

    /// The top of the emergency stack.
    pub fn emergency_stack(&self) -> (top: u64)
        ensures
            top == self.stack_top(),
    {
        self.stack_top
    }

    /// The stack pointer in entry `index` of the interrupt stack table,
    /// or `None` if the table has no such entry.
    pub fn interrupt_stack(&self, index: u16) -> (top: Option<u64>)
        ensures
            top == if index < INTERRUPT_STACKS {
                Some(self.stacks()[index as int])
            } else {
                None
            },
    {
        if (index as usize) < INTERRUPT_STACKS {
            Some(get_interrupt_stack(&self.segment, index as usize))
        } else {
            None
        }
    }
}

/// What `build` leaves in the table: the null descriptor, the kernel code
/// segment, and the two words of the task state descriptor.
pub open spec fn is_kernel_table(words: Seq<u64>) -> bool {
    &&& words.len() == 4
    &&& words[0] == 0
    &&& words[1] == KERNEL_CODE_SEGMENT
    &&& is_task_state_descriptor(words[2], words[3])
}

/// The selectors of the entries that `build` adds: the code segment is
/// entry 1, the task state entry 2, both at privilege level 0.
pub open spec fn kernel_selectors() -> Selectors {
    Selectors {
        code_selector: SegmentSelector { bits: 0x08 },
        tss_selector: SegmentSelector { bits: 0x10 },
    }
}

/// Builds the descriptor table of the kernel: a code segment and the
/// descriptor of `tss`. Returns the table with the selectors of both.
pub fn build(tss: &'static TaskState) -> (built: (GlobalDescriptorTable, Selectors))
    ensures
        is_kernel_table(table_words(built.0)),
        built.1 == kernel_selectors(),
{
    let mut table = empty_table();
    let code = kernel_code_segment();
    let task = tss_segment(&tss.segment);
    proof {
        lemma_code_segment_is_ring_0();
        lemma_task_state_descriptor_is_ring_0(task);
    }
    let code_selector = add_entry(&mut table, code);
    let tss_selector = add_entry(&mut table, task);
    (table, Selectors { code_selector, tss_selector })
}

/// The steps that activate the descriptor table.
pub open spec fn descriptor_steps(selectors: Selectors) -> Seq<Step> {
    seq![
        Step::LoadDescriptorTable,
        Step::SetCodeSegment(selectors.code_selector),
        Step::LoadTaskRegister(selectors.tss_selector),
    ]
}

/// Activates the descriptor table: load it, then reload the code segment
/// register and load the task register with the selectors that the table
/// gave.
pub fn activate(selectors: Selectors) -> (steps: Vec<Step>)
    ensures
        steps@ == descriptor_steps(selectors),
{
    let mut steps: Vec<Step> = Vec::new();
    steps.push(Step::LoadDescriptorTable);
    steps.push(Step::SetCodeSegment(selectors.code_selector));
    steps.push(Step::LoadTaskRegister(selectors.tss_selector));
    assert(steps@ =~= descriptor_steps(selectors));
    steps
}

/// The words of the table, in order.
pub fn words_of(table: &GlobalDescriptorTable) -> (words: Vec<u64>)
    ensures
        words@ == table_words(*table),
{
    raw_words(table)
}

/// The kernel code segment is a ring 0 segment.
pub proof fn lemma_code_segment_is_ring_0()
    ensures
        SegmentDescriptor::User(KERNEL_CODE_SEGMENT).privilege() == 0,
{
    assert((0x00af_9b00_0000_ffffu64 & 0x6000_0000_0000) >> 45 == 0) by (bit_vector);
}

/// A task state descriptor is a ring 0 descriptor of two words.
pub proof fn lemma_task_state_descriptor_is_ring_0(descriptor: SegmentDescriptor)
    requires
        describes_task_state(descriptor),
    ensures
        descriptor.privilege() == 0,
        descriptor.words().len() == 2,
{
    let low = descriptor.low();
    assert((low & 0x6000_0000_0000) >> 45 == 0) by (bit_vector)
        requires
            low & 0x00ff_ff00_0000_ffff == 0x0000_8900_0000_0067,
    ;
}

} // verus!
