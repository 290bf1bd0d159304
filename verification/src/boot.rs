//! The init sequence: builds the structures of the kernel and says, step
//! by step, what the processor is to be told.

use vstd::prelude::*;
use x86_64::structures::gdt::GlobalDescriptorTable;
use crate::gdt::{
    activate, build, descriptor_steps, is_kernel_table, kernel_selectors, table_words,
    SegmentSelector, Selectors, TaskState, EMERGENCY_STACK_SIZE,
};
use crate::interrupts::{
    exception_slots, vector_steps, Binding, Handler, InterruptState, Mode, VectorTable,
    DOUBLE_FAULT_VECTOR, KEYBOARD_LINE, TIMER_LINE,
};
use crate::machine::{write_steps, PortWrite, Step};
use crate::pic::{ChainedPics, PIC_1_OFFSET, PIC_2_OFFSET};

verus! {

/// The steps of the init sequence: the descriptor table, then the vector
/// table, then the controllers, and the delivery of interrupts last.
pub open spec fn init_steps(selectors: Selectors, pic_writes: Seq<PortWrite>) -> Seq<Step> {
    descriptor_steps(selectors) + vector_steps() + write_steps(pic_writes) + seq![
        Step::EnableInterrupts,
    ]
}

/// The structures of the kernel, each made once by `init`.
#[derive(Debug)]
pub struct Kernel {
    pub descriptor_table: GlobalDescriptorTable,
    pub selectors: Selectors,
    pub vector_table: VectorTable,
    pub interrupts: InterruptState,
}

/// The slots of the kernel's vector table: the three exceptions, and the
/// timer and the keyboard on the first two vectors of the primary
/// controller.
pub open spec fn kernel_slots(code_selector: SegmentSelector) -> Seq<Option<Binding>> {
    exception_slots(code_selector).update(
        PIC_1_OFFSET + TIMER_LINE,
        Some(Binding::of(Handler::Timer, code_selector)),
    ).update(PIC_1_OFFSET + KEYBOARD_LINE, Some(Binding::of(Handler::Keyboard, code_selector)))
}

/// Builds the kernel's structures and the steps that put them to work:
/// the descriptor table with the descriptor of `tss`, the vector table in
/// the code segment of that descriptor table, and the controllers at
/// their standard offsets. `saved_masks` are the masks that the
/// controllers held before. To be called once per boot.
pub fn init(tss: &'static TaskState, mode: Mode, saved_masks: (u8, u8)) -> (booted: (
    Kernel,
    Vec<Step>,
))
    ensures
        is_kernel_table(table_words(booted.0.descriptor_table)),
        booted.0.selectors == kernel_selectors(),
        booted.0.vector_table@ == kernel_slots(kernel_selectors().code_selector),
        booted.0.vector_table.code_selector() == kernel_selectors().code_selector,
        booted.0.interrupts.mode == mode,
        booted.0.interrupts.pics.wf(),
        booted.0.interrupts.pics.primary().offset == PIC_1_OFFSET,
        booted.0.interrupts.pics.secondary().offset == PIC_2_OFFSET,
        booted.0.interrupts.ticks == 0,
        booted.0.interrupts.last_scancode == None::<u8>,
        booted.1@ == init_steps(
            kernel_selectors(),
            booted.0.interrupts.pics.initialize_writes(saved_masks),
        ),
{
    let (descriptor_table, selectors) = build(tss);
    let pics = ChainedPics::standard();
    let vector_table = VectorTable::build(selectors.code_selector).bind_hardware(&pics);
    let writes = pics.initialize(saved_masks);

    let mut steps = activate(selectors);
    let mut vectors = vector_table.activate();
    steps.append(&mut vectors);
    let ghost before = steps@;
    let mut i: usize = 0;
    while i < writes.len()
        invariant
            i <= writes@.len(),
            steps@ == before + write_steps(writes@.take(i as int)),
        decreases writes@.len() - i,
    {
        proof {
            assert(write_steps(writes@.take(i as int + 1)) =~= write_steps(
                writes@.take(i as int),
            ).push(Step::Write(writes@[i as int])));
        }
        steps.push(Step::Write(writes[i]));
        i = i + 1;
    }
    steps.push(Step::EnableInterrupts);
    proof {
        assert(writes@.take(writes@.len() as int) =~= writes@);
        assert(steps@ =~= init_steps(selectors, writes@));
    }
    let kernel = Kernel {
        descriptor_table,
        selectors,
        vector_table,
        interrupts: InterruptState::new(mode, pics),
    };
    (kernel, steps)
}

/// In the init sequence the descriptor table is active before the vector
/// table is loaded, the vector table is loaded before the controllers
/// are initialised, and interrupts are enabled last.
pub proof fn lemma_init_order(selectors: Selectors, pic_writes: Seq<PortWrite>)
    ensures
        ({
            let steps = init_steps(selectors, pic_writes);
            &&& steps.len() == pic_writes.len() + 5
            &&& steps[0] == Step::LoadDescriptorTable
            &&& steps[1] == Step::SetCodeSegment(selectors.code_selector)
            &&& steps[2] == Step::LoadTaskRegister(selectors.tss_selector)
            &&& steps[3] == Step::LoadVectorTable
            &&& forall|i: int|
                0 <= i < pic_writes.len() ==> #[trigger] steps[4 + i] == Step::Write(pic_writes[i])
            &&& steps.last() == Step::EnableInterrupts
        }),
{
}

/// A double fault is served on the emergency stack: the slot of the
/// double fault in the kernel's vector table names an entry of the
/// interrupt stack table, and in the kernel's task state that entry holds
/// the top of the emergency stack, which is not null.
pub proof fn lemma_double_fault_runs_on_emergency_stack(
    code_selector: SegmentSelector,
    tss: TaskState,
)
    requires
        tss.wf(),
    ensures
        kernel_slots(code_selector)[DOUBLE_FAULT_VECTOR as int] matches Some(binding)
            && binding.handler == Handler::DoubleFault && (binding.stack_index matches Some(index)
            && tss.stacks()[index as int] == tss.stack_top()),
        tss.stack_top() >= EMERGENCY_STACK_SIZE,
{
}

} // verus!
