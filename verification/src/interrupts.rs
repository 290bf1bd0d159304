//! The vector table and the policy of the handlers bound in it.
//!
//! The table says which handler serves which vector. The policy says, for
//! each interrupt that arrives, what is logged and where, what is
//! acknowledged, and whether execution resumes. The caller carries both
//! out on the processor.

use vstd::prelude::*;
use vstd::string::StringExecFns;
use crate::exit::{exit_qemu, exit_write, QemuExitCode};
use crate::gdt::{SegmentSelector, DOUBLE_FAULT_IST_INDEX};
use crate::pic::{ChainedPics, RESERVED_VECTORS};
use crate::machine::{PortWrite, Step};
use crate::text::{hex, to_hex};

verus! {

/// Number of vectors in the table.
pub const VECTOR_COUNT: usize = 256;

/// Vector of the breakpoint exception.
pub const BREAKPOINT_VECTOR: u8 = 3;

/// Vector of the double-fault exception.
pub const DOUBLE_FAULT_VECTOR: u8 = 8;

/// Vector of the page-fault exception.
pub const PAGE_FAULT_VECTOR: u8 = 14;

/// Hardware line of the timer.
pub const TIMER_LINE: u8 = 0;

/// Hardware line of the keyboard.
pub const KEYBOARD_LINE: u8 = 1;

/// Port from which the keyboard's scan code is read.
pub const KEYBOARD_DATA_PORT: u16 = 0x60;

/// The handlers of the kernel.
#[derive(Debug, Clone, Copy, PartialEq, Eq, Structural)]
pub enum Handler {
    Breakpoint,
    DoubleFault,
    PageFault,
    Timer,
    Keyboard,
}

impl Handler {
    /// The hardware line that the handler serves; none for an exception.
    pub open spec fn spec_line(self) -> Option<u8> {
        match self {
            Handler::Timer => Some(TIMER_LINE),
            Handler::Keyboard => Some(KEYBOARD_LINE),
            _ => None,
        }
    }

    /// The hardware line that the handler serves; none for an exception.
    #[verifier::when_used_as_spec(spec_line)]
    pub fn line(self) -> (line: Option<u8>)
        ensures
            line == self.spec_line(),
    {
        match self {
            Handler::Timer => Some(TIMER_LINE),
            Handler::Keyboard => Some(KEYBOARD_LINE),
            _ => None,
        }
    }

    /// The entry of the interrupt stack table on which the handler runs;
    /// none for a handler that runs on the stack in use. Only the
    /// double-fault handler has one: the emergency stack.
    pub open spec fn spec_stack_index(self) -> Option<u16> {
        if self == Handler::DoubleFault {
            Some(DOUBLE_FAULT_IST_INDEX)
        } else {
            None
        }
    }

    /// The entry of the interrupt stack table on which the handler runs.
    #[verifier::when_used_as_spec(spec_stack_index)]
    pub fn stack_index(self) -> (index: Option<u16>)
        ensures
            index == self.spec_stack_index(),
    {
        match self {
            Handler::DoubleFault => Some(DOUBLE_FAULT_IST_INDEX),
            _ => None,
        }
    }

    /// Whether the handler may be bound to `vector`: an exception handler
    /// to the vector of its exception, a hardware handler to any vector
    /// past the reserved ones.
    pub open spec fn fits(self, vector: int) -> bool {
        match self {
            Handler::Breakpoint => vector == BREAKPOINT_VECTOR,
            Handler::DoubleFault => vector == DOUBLE_FAULT_VECTOR,
            Handler::PageFault => vector == PAGE_FAULT_VECTOR,
            Handler::Timer => RESERVED_VECTORS <= vector < VECTOR_COUNT,
            Handler::Keyboard => RESERVED_VECTORS <= vector < VECTOR_COUNT,
        }
    }
}

/// What a bound slot of the table holds.
#[derive(Debug, Clone, Copy, PartialEq, Eq, Structural)]
pub struct Binding {
    pub handler: Handler,
    /// The code segment in which the handler runs.
    pub code_selector: SegmentSelector,
    /// The entry of the interrupt stack table to switch to, if any.
    pub stack_index: Option<u16>,
}

impl Binding {
    /// The binding of `handler` in the code segment `code_selector`.
    pub open spec fn of(handler: Handler, code_selector: SegmentSelector) -> Binding {
        Binding { handler, code_selector, stack_index: handler.spec_stack_index() }
    }

    /// The binding of `handler` in the code segment `code_selector`.
    pub fn new(handler: Handler, code_selector: SegmentSelector) -> (binding: Binding)
        ensures
            binding == Binding::of(handler, code_selector),
    {
        Binding { handler, code_selector, stack_index: handler.stack_index() }
    }
}

/// The slot of `vector` in a table that `build` has made.
pub open spec fn exception_slot(code_selector: SegmentSelector, vector: int) -> Option<Binding> {
    if vector == BREAKPOINT_VECTOR {
        Some(Binding::of(Handler::Breakpoint, code_selector))
    } else if vector == DOUBLE_FAULT_VECTOR {
        Some(Binding::of(Handler::DoubleFault, code_selector))
    } else if vector == PAGE_FAULT_VECTOR {
        Some(Binding::of(Handler::PageFault, code_selector))
    } else {
        None
    }
}

/// The slots of a table that `build` has made.
pub open spec fn exception_slots(code_selector: SegmentSelector) -> Seq<Option<Binding>> {
    Seq::new(VECTOR_COUNT as nat, |vector: int| exception_slot(code_selector, vector))
}

/// The steps that activate the vector table.
pub open spec fn vector_steps() -> Seq<Step> {
    seq![Step::LoadVectorTable]
}

/// The table of 256 vectors, each empty or bound to a handler.
#[derive(Debug)]
pub struct VectorTable {
    code_selector: SegmentSelector,
    slots: Vec<Option<Binding>>,
}

impl View for VectorTable {
    type V = Seq<Option<Binding>>;

    /// The slots of the table, by vector.
    closed spec fn view(&self) -> Seq<Option<Binding>> {
        self.slots@
    }
}

impl VectorTable {
    /// The code segment of every handler in the table.
    pub closed spec fn code_selector(&self) -> SegmentSelector {
        self.code_selector
    }

    /// The table is well formed: it has 256 slots, and each bound slot
    /// holds the binding of a handler that fits its vector, in the table's
    /// code segment. So the double-fault handler, and no other, runs on
    /// the emergency stack. This holds of every table that a program
    /// holds.
    #[verifier::type_invariant]
    pub open spec fn wf(&self) -> bool {
        &&& self@.len() == VECTOR_COUNT
        &&& forall|vector: int|
            0 <= vector < VECTOR_COUNT ==> ((#[trigger] self@[vector]) matches Some(binding) ==> {
                &&& binding == Binding::of(binding.handler, self.code_selector())
                &&& binding.handler.fits(vector)
            })
    }

    /// Builds the table: the breakpoint, double-fault and page-fault
    /// vectors are bound to their handlers in the code segment
    /// `code_selector`, the double-fault vector on the emergency stack.
    /// Every other slot is empty.
    pub fn build(code_selector: SegmentSelector) -> (table: VectorTable)
        ensures
            table.wf(),
            table.code_selector() == code_selector,
            table@ == exception_slots(code_selector),
    {
        let mut slots: Vec<Option<Binding>> = Vec::new();
        let mut vector: usize = 0;
        while vector < VECTOR_COUNT
            invariant
                vector <= VECTOR_COUNT,
                slots@.len() == vector,
                forall|v: int| 0 <= v < vector ==> slots@[v] == exception_slot(code_selector, v),
            decreases VECTOR_COUNT - vector,
        {
            let slot = if vector == BREAKPOINT_VECTOR as usize {
                Some(Binding::new(Handler::Breakpoint, code_selector))
            } else if vector == DOUBLE_FAULT_VECTOR as usize {
                Some(Binding::new(Handler::DoubleFault, code_selector))
            } else if vector == PAGE_FAULT_VECTOR as usize {
                Some(Binding::new(Handler::PageFault, code_selector))
            } else {
                None
            };
            slots.push(slot);
            vector = vector + 1;
        }
        assert(slots@ =~= exception_slots(code_selector));
        VectorTable { code_selector, slots }
    }

    /// Binds the handlers of the timer and of the keyboard to the vectors
    /// on which the controllers `pics` deliver their lines.
    pub fn bind_hardware(self, pics: &ChainedPics) -> (table: VectorTable)
        ensures
            table.wf(),
            table.code_selector() == self.code_selector(),
            table@ == self@.update(
                pics.primary().offset + TIMER_LINE,
                Some(Binding::of(Handler::Timer, self.code_selector())),
            ).update(
                pics.primary().offset + KEYBOARD_LINE,
                Some(Binding::of(Handler::Keyboard, self.code_selector())),
            ),
    {
        proof {
            use_type_invariant(&self);
            use_type_invariant(pics);
        }
        let offset = pics.primary_pic().offset;
        let code_selector = self.code_selector;
        let mut slots = self.slots;
        slots.set((offset + TIMER_LINE) as usize, Some(Binding::new(Handler::Timer, code_selector)));
        slots.set(
            (offset + KEYBOARD_LINE) as usize,
            Some(Binding::new(Handler::Keyboard, code_selector)),
        );
        VectorTable { code_selector, slots }
    }

    /// Activates the table: load it into the processor. The descriptor
    /// table has to be active by then, since the handlers run in its
    /// code segment.
    pub fn activate(&self) -> (steps: Vec<Step>)
        ensures
            steps@ == vector_steps(),
    {
        let mut steps: Vec<Step> = Vec::new();
        steps.push(Step::LoadVectorTable);
        assert(steps@ =~= vector_steps());
        steps
    }

    /// The code segment of every handler in the table.
    pub fn selector(&self) -> (code_selector: SegmentSelector)
        ensures
            code_selector == self.code_selector(),
    {
        self.code_selector
    }

    /// The slot of `vector`.
    pub fn binding(&self, vector: u8) -> (slot: Option<Binding>)
        ensures
            slot == self@[vector as int],
    {
        proof {
            use_type_invariant(self);
        }
        self.slots[vector as usize]
    }
}

/// How the kernel runs: for a person at the console, or under an
/// automated test that reads the serial channel and waits for the exit
/// signal.
#[derive(Debug, Clone, Copy, PartialEq, Eq, Structural)]
pub enum Mode {
    Interactive,
    AutomatedTest,
}

/// An interrupt as the processor delivers it to its handler.
#[derive(Debug, Clone, Copy, PartialEq, Eq, Structural)]
pub enum Interrupt {
    Breakpoint,
    /// `address` is the address whose access faulted, `error_code` the
    /// code that the processor pushed.
    PageFault { address: u64, error_code: u64 },
    DoubleFault { error_code: u64 },
    Timer,
    /// `scancode` is the byte read from the keyboard's data port.
    Keyboard { scancode: u8 },
}

impl Interrupt {
    /// The handler that serves the interrupt.
    pub open spec fn spec_handler(self) -> Handler {
        match self {
            Interrupt::Breakpoint => Handler::Breakpoint,
            Interrupt::PageFault { .. } => Handler::PageFault,
            Interrupt::DoubleFault { .. } => Handler::DoubleFault,
            Interrupt::Timer => Handler::Timer,
            Interrupt::Keyboard { .. } => Handler::Keyboard,
        }
    }

    /// The handler that serves the interrupt.
    #[verifier::when_used_as_spec(spec_handler)]
    pub fn handler(self) -> (handler: Handler)
        ensures
            handler == self.spec_handler(),
    {
        match self {
            Interrupt::Breakpoint => Handler::Breakpoint,
            Interrupt::PageFault { .. } => Handler::PageFault,
            Interrupt::DoubleFault { .. } => Handler::DoubleFault,
            Interrupt::Timer => Handler::Timer,
            Interrupt::Keyboard { .. } => Handler::Keyboard,
        }
    }
}

/// The flags of a page fault's error code.
#[derive(Debug, Clone, Copy, PartialEq, Eq, Structural)]
pub struct PageFaultFlags {
    /// The access violated a protection; if not set, the page was not
    /// present.
    pub protection_violation: bool,
    /// The access was a write.
    pub caused_by_write: bool,
    /// The access came from user mode.
    pub user_mode: bool,
    /// A reserved bit was set in a page table entry.
    pub malformed_table: bool,
    /// The access was an instruction fetch.
    pub instruction_fetch: bool,
}

impl PageFaultFlags {
    /// The flags that `error_code` holds in its bits 0 to 4.
    pub open spec fn of(error_code: u64) -> PageFaultFlags {
        PageFaultFlags {
            protection_violation: error_code & 0x01 != 0,
            caused_by_write: error_code & 0x02 != 0,
            user_mode: error_code & 0x04 != 0,
            malformed_table: error_code & 0x08 != 0,
            instruction_fetch: error_code & 0x10 != 0,
        }
    }

    /// Reads the flags of `error_code`.
    pub fn decode(error_code: u64) -> (flags: PageFaultFlags)
        ensures
            flags == PageFaultFlags::of(error_code),
    {
        PageFaultFlags {
            protection_violation: error_code & 0x01 != 0,
            caused_by_write: error_code & 0x02 != 0,
            user_mode: error_code & 0x04 != 0,
            malformed_table: error_code & 0x08 != 0,
            instruction_fetch: error_code & 0x10 != 0,
        }
    }
}

/// What a handler has to say. The caller turns it into text and adds the
/// processor's context.
#[derive(Debug, Clone, Copy, PartialEq, Eq, Structural)]
pub enum Notice {
    /// Nothing is logged.
    Silent,
    Breakpoint,
    PageFault { address: u64, flags: PageFaultFlags },
    DoubleFault { error_code: u64 },
}

/// The text so far with the name of one more flag, if the flag is set.
/// Names are separated by a bar.
pub open spec fn with_flag(text: Seq<char>, set: bool, name: Seq<char>) -> Seq<char> {
    if !set {
        text
    } else if text.len() == 0 {
        name
    } else {
        text + " | "@ + name
    }
}

/// The names of the flags that are set, in the order of their bits.
pub open spec fn flag_names(flags: PageFaultFlags) -> Seq<char> {
    with_flag(
        with_flag(
            with_flag(
                with_flag(
                    with_flag(
                        Seq::empty(),
                        flags.protection_violation,
                        "PROTECTION_VIOLATION"@,
                    ),
                    flags.caused_by_write,
                    "CAUSED_BY_WRITE"@,
                ),
                flags.user_mode,
                "USER_MODE"@,
            ),
            flags.malformed_table,
            "MALFORMED_TABLE"@,
        ),
        flags.instruction_fetch,
        "INSTRUCTION_FETCH"@,
    )
}

/// The flags as text: the names of those that are set, or `(none)`.
pub open spec fn flags_text(flags: PageFaultFlags) -> Seq<char> {
    if flag_names(flags).len() == 0 {
        "(none)"@
    } else {
        flag_names(flags)
    }
}

impl Notice {
    /// The notice as text. The caller appends the processor's context.
    pub open spec fn text(self) -> Seq<char> {
        match self {
            Notice::Silent => Seq::empty(),
            Notice::Breakpoint => "EXCEPTION: BREAKPOINT\n"@,
            Notice::PageFault { address, flags } => "EXCEPTION: PAGE FAULT\nAccessed Address: 0x"@
                + hex(address as nat) + "\nError Code: "@ + flags_text(flags) + "\n"@,
            Notice::DoubleFault { error_code } => "EXCEPTION: DOUBLE FAULT\nError Code: 0x"@ + hex(
                error_code as nat,
            ) + "\n"@,
        }
    }

    /// Writes the notice as text.
    pub fn message(&self) -> (text: String)
        ensures
            text@ == self.text(),
    {
        match self {
            Notice::Silent => String::new(),
            Notice::Breakpoint => String::from_str("EXCEPTION: BREAKPOINT\n"),
            Notice::PageFault { address, flags } => {
                let mut text = String::from_str("EXCEPTION: PAGE FAULT\nAccessed Address: 0x");
                let address = to_hex(*address);
                let flags = describe_flags(flags);
                text.append(address.as_str());
                text.append("\nError Code: ");
                text.append(flags.as_str());
                text.append("\n");
                text
            },
            Notice::DoubleFault { error_code } => {
                let mut text = String::from_str("EXCEPTION: DOUBLE FAULT\nError Code: 0x");
                let code = to_hex(*error_code);
                text.append(code.as_str());
                text.append("\n");
                text
            },
        }
    }
}

fn add_flag(text: &mut String, any: &mut bool, set: bool, name: &str)
    requires
        *old(any) == (old(text)@.len() > 0),
        name@.len() > 0,
    ensures
        final(text)@ == with_flag(old(text)@, set, name@),
        *final(any) == (final(text)@.len() > 0),
{
    if set {
        if *any {
            text.append(" | ");
        }
        text.append(name);
        *any = true;
    }
}

/// Writes the flags as text: the names of those that are set, separated
/// by bars, or `(none)`.
pub fn describe_flags(flags: &PageFaultFlags) -> (text: String)
    ensures
        text@ == flags_text(*flags),
{
    proof {
        reveal_strlit("PROTECTION_VIOLATION");
        reveal_strlit("CAUSED_BY_WRITE");
        reveal_strlit("USER_MODE");
        reveal_strlit("MALFORMED_TABLE");
        reveal_strlit("INSTRUCTION_FETCH");
    }
    let mut text = String::new();
    let mut any = false;
    add_flag(&mut text, &mut any, flags.protection_violation, "PROTECTION_VIOLATION");
    add_flag(&mut text, &mut any, flags.caused_by_write, "CAUSED_BY_WRITE");
    add_flag(&mut text, &mut any, flags.user_mode, "USER_MODE");
    add_flag(&mut text, &mut any, flags.malformed_table, "MALFORMED_TABLE");
    add_flag(&mut text, &mut any, flags.instruction_fetch, "INSTRUCTION_FETCH");
    if any {
        text
    } else {
        String::from_str("(none)")
    }
}

/// The channels on which a notice is logged.
#[derive(Debug, Clone, Copy, PartialEq, Eq, Structural)]
pub struct LogChannels {
    pub console: bool,
    pub serial: bool,
}

/// What follows the handler.
#[derive(Debug, Clone, Copy, PartialEq, Eq, Structural)]
pub enum Disposition {
    /// Execution resumes where it was interrupted.
    Resume,
    /// The kernel halts for good.
    Halt,
}

/// What a handler does about one interrupt, in the order of the fields:
/// log, acknowledge, report, then resume or halt.
#[derive(Debug)]
pub struct Response {
    pub notice: Notice,
    pub channels: LogChannels,
    /// The writes that acknowledge the interrupt to the controllers.
    pub acknowledge: Vec<PortWrite>,
    /// The exit signal, where the fault ends an automated run.
    pub exit: Option<PortWrite>,
    pub disposition: Disposition,
}

/// What is logged about `interrupt`.
pub open spec fn notice_for(interrupt: Interrupt) -> Notice {
    match interrupt {
        Interrupt::Breakpoint => Notice::Breakpoint,
        Interrupt::PageFault { address, error_code } => Notice::PageFault {
            address,
            flags: PageFaultFlags::of(error_code),
        },
        Interrupt::DoubleFault { error_code } => Notice::DoubleFault { error_code },
        Interrupt::Timer => Notice::Silent,
        Interrupt::Keyboard { .. } => Notice::Silent,
    }
}

/// Where `handler` logs. An exception is logged on the serial channel and,
/// for a person at the console, there too; but a double fault never on
/// the console, which is not to be relied on by then. A hardware
/// interrupt is not logged.
pub open spec fn channels_for(handler: Handler, mode: Mode) -> LogChannels {
    match handler {
        Handler::Breakpoint | Handler::PageFault => LogChannels {
            console: mode == Mode::Interactive,
            serial: true,
        },
        Handler::DoubleFault => LogChannels { console: false, serial: true },
        Handler::Timer | Handler::Keyboard => LogChannels { console: false, serial: false },
    }
}

/// What follows `handler`: a breakpoint and a hardware interrupt resume,
/// a page fault and a double fault halt.
pub open spec fn disposition_for(handler: Handler) -> Disposition {
    match handler {
        Handler::PageFault | Handler::DoubleFault => Disposition::Halt,
        _ => Disposition::Resume,
    }
}

/// The exit signal of `handler`: a fault that halts an automated run
/// reports failure first.
pub open spec fn exit_for(handler: Handler, mode: Mode) -> Option<PortWrite> {
    if disposition_for(handler) == Disposition::Halt && mode == Mode::AutomatedTest {
        Some(exit_write(QemuExitCode::Failed))
    } else {
        None
    }
}

/// The tick count after one more tick. The count starts over after the
/// largest value.
pub open spec fn next_tick(ticks: u64) -> u64 {
    if ticks == u64::MAX {
        0
    } else {
        (ticks + 1) as u64
    }
}

/// The state that the handlers share: the controllers, and what the
/// hardware handlers keep count of.
#[derive(Debug)]
pub struct InterruptState {
    pub mode: Mode,
    pub pics: ChainedPics,
    /// Timer interrupts served so far.
    pub ticks: u64,
    /// The scan code that the keyboard sent last.
    pub last_scancode: Option<u8>,
}

impl InterruptState {
    /// The state before any interrupt.
    pub fn new(mode: Mode, pics: ChainedPics) -> (state: InterruptState)
        ensures
            state.mode == mode,
            state.pics == pics,
            state.ticks == 0,
            state.last_scancode == None::<u8>,
    {
        InterruptState { mode, pics, ticks: 0, last_scancode: None }
    }

    /// Serves one interrupt. An exception is logged; a page fault and a
    /// double fault halt the kernel, a breakpoint resumes. A timer
    /// interrupt is counted and a scan code kept, and either is
    /// acknowledged to the controllers on its own line, every time.
    pub fn handle(&mut self, interrupt: Interrupt) -> (response: Response)
        ensures
            final(self).mode == old(self).mode,
            final(self).pics == old(self).pics,
            final(self).ticks == if interrupt == Interrupt::Timer {
                next_tick(old(self).ticks)
            } else {
                old(self).ticks
            },
            final(self).last_scancode == if let Interrupt::Keyboard { scancode } = interrupt {
                Some(scancode)
            } else {
                old(self).last_scancode
            },
            response.notice == notice_for(interrupt),
            response.channels == channels_for(interrupt.handler(), old(self).mode),
            response.acknowledge@ == match interrupt.handler().line() {
                Some(line) => old(self).pics.acknowledge_writes(line),
                None => Seq::<PortWrite>::empty(),
            },
            response.exit == exit_for(interrupt.handler(), old(self).mode),
            response.disposition == disposition_for(interrupt.handler()),
    {
        let handler = interrupt.handler();
        let interactive = match self.mode {
            Mode::Interactive => true,
            Mode::AutomatedTest => false,
        };
        let acknowledge = match handler.line() {
            Some(line) => self.pics.acknowledge(line),
            None => Vec::new(),
        };
        match interrupt {
            Interrupt::Breakpoint => Response {
                notice: Notice::Breakpoint,
                channels: LogChannels { console: interactive, serial: true },
                acknowledge,
                exit: None,
                disposition: Disposition::Resume,
            },
            Interrupt::PageFault { address, error_code } => Response {
                notice: Notice::PageFault { address, flags: PageFaultFlags::decode(error_code) },
                channels: LogChannels { console: interactive, serial: true },
                acknowledge,
                exit: if interactive {
                    None
                } else {
                    Some(exit_qemu(QemuExitCode::Failed))
                },
                disposition: Disposition::Halt,
            },
            Interrupt::DoubleFault { error_code } => Response {
                notice: Notice::DoubleFault { error_code },
                channels: LogChannels { console: false, serial: true },
                acknowledge,
                exit: if interactive {
                    None
                } else {
                    Some(exit_qemu(QemuExitCode::Failed))
                },
                disposition: Disposition::Halt,
            },
            Interrupt::Timer => {
                self.ticks = self.ticks.wrapping_add(1);
                Response {
                    notice: Notice::Silent,
                    channels: LogChannels { console: false, serial: false },
                    acknowledge,
                    exit: None,
                    disposition: Disposition::Resume,
                }
            },
            Interrupt::Keyboard { scancode } => {
                self.last_scancode = Some(scancode);
                Response {
                    notice: Notice::Silent,
                    channels: LogChannels { console: false, serial: false },
                    acknowledge,
                    exit: None,
                    disposition: Disposition::Resume,
                }
            },
        }
    }
}

/// A double fault is taken on the emergency stack, and on it alone: in
/// a well-formed table the slot of the double fault, where bound, holds
/// the double-fault handler on the reserved entry of the interrupt stack
/// table, and no other slot switches stacks. The handler logs on the
/// serial channel only and halts.
pub proof fn lemma_double_fault_is_contained(table: VectorTable, vector: u8, mode: Mode)
    requires
        table.wf(),
    ensures
        table@[DOUBLE_FAULT_VECTOR as int] matches Some(binding) ==> binding.handler
            == Handler::DoubleFault && binding.stack_index == Some(DOUBLE_FAULT_IST_INDEX),
        vector != DOUBLE_FAULT_VECTOR ==> (table@[vector as int] matches Some(binding)
            ==> binding.stack_index is None),
        channels_for(Handler::DoubleFault, mode) == (LogChannels { console: false, serial: true }),
        disposition_for(Handler::DoubleFault) == Disposition::Halt,
{
}

/// A breakpoint is logged on the serial channel and execution resumes:
/// no halt follows, and no exit signal.
pub proof fn lemma_breakpoint_resumes(mode: Mode)
    ensures
        channels_for(Handler::Breakpoint, mode).serial,
        disposition_for(Handler::Breakpoint) == Disposition::Resume,
        exit_for(Handler::Breakpoint, mode) is None,
{
}

/// A hardware interrupt is acknowledged on its own line every time, and
/// execution resumes: the line that the handler of the timer or of the
/// keyboard acknowledges is the line of the vector to which the handler
/// is bound, and the acknowledgment is the end-of-interrupt command to
/// the primary controller.
pub proof fn lemma_hardware_interrupt_is_acknowledged(pics: ChainedPics, handler: Handler)
    requires
        pics.wf(),
        handler == Handler::Timer || handler == Handler::Keyboard,
    ensures
        handler.line() matches Some(line) && pics.line_of((pics.primary().offset + line) as u8)
            == Some(line) && pics.acknowledge_writes(line) == seq![
            pics.primary().end_of_interrupt_write(),
        ],
        disposition_for(handler) == Disposition::Resume,
{
}

} // verus!
