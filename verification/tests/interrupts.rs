use kernel_bootstrap::gdt::SegmentSelector;
use kernel_bootstrap::interrupts::{
    describe_flags, Disposition, Binding, Handler, Interrupt, InterruptState, LogChannels, Mode, Notice,
    PageFaultFlags, VectorTable, BREAKPOINT_VECTOR, DOUBLE_FAULT_VECTOR, KEYBOARD_DATA_PORT,
    PAGE_FAULT_VECTOR,
};
use kernel_bootstrap::pic::ChainedPics;
use kernel_bootstrap::machine::{PortValue, PortWrite};

const CODE: SegmentSelector = SegmentSelector { bits: 0x08 };
const FAILURE: PortWrite = PortWrite { port: 0xf4, value: PortValue::Long(0x11) };
const END_OF_INTERRUPT: PortWrite = PortWrite { port: 0x20, value: PortValue::Byte(0x20) };

fn state(mode: Mode) -> InterruptState {
    InterruptState::new(mode, ChainedPics::standard())
}

#[test]
fn build_binds_the_three_exceptions() {
    let table = VectorTable::build(CODE);
    assert_eq!((BREAKPOINT_VECTOR, DOUBLE_FAULT_VECTOR, PAGE_FAULT_VECTOR), (3, 8, 14));
    assert_eq!(table.selector(), CODE);
    assert_eq!(
        table.binding(3),
        Some(Binding { handler: Handler::Breakpoint, code_selector: CODE, stack_index: None })
    );
    assert_eq!(
        table.binding(8),
        Some(Binding { handler: Handler::DoubleFault, code_selector: CODE, stack_index: Some(0) })
    );
    assert_eq!(
        table.binding(14),
        Some(Binding { handler: Handler::PageFault, code_selector: CODE, stack_index: None })
    );
    for vector in 0..=255u8 {
        if vector != 3 && vector != 8 && vector != 14 {
            assert_eq!(table.binding(vector), None);
        }
    }
}

#[test]
fn build_uses_the_selector_given() {
    let selector = SegmentSelector { bits: 0x2b };
    let table = VectorTable::build(selector);
    assert_eq!(table.binding(3).unwrap().code_selector, selector);
    assert_eq!(table.binding(8).unwrap().code_selector, selector);
    assert_eq!(table.binding(14).unwrap().code_selector, selector);
}

#[test]
fn only_the_double_fault_switches_stacks() {
    let table = VectorTable::build(CODE).bind_hardware(&ChainedPics::standard());
    for vector in 0..=255u8 {
        if let Some(binding) = table.binding(vector) {
            assert_eq!(binding.stack_index.is_some(), vector == 8);
            assert_eq!(binding.stack_index, binding.handler.stack_index());
        }
    }
    assert_eq!(Handler::DoubleFault.stack_index(), Some(0));
    assert_eq!(Handler::PageFault.stack_index(), None);
}

#[test]
fn bind_hardware_adds_the_timer_and_the_keyboard() {
    let table = VectorTable::build(CODE).bind_hardware(&ChainedPics::standard());
    assert_eq!(
        table.binding(32),
        Some(Binding { handler: Handler::Timer, code_selector: CODE, stack_index: None })
    );
    assert_eq!(
        table.binding(33),
        Some(Binding { handler: Handler::Keyboard, code_selector: CODE, stack_index: None })
    );
    assert_eq!(table.binding(34), None);
    assert_eq!(table.binding(31), None);
    assert_eq!(table.binding(3).unwrap().handler, Handler::Breakpoint);
    assert_eq!(table.binding(8).unwrap().handler, Handler::DoubleFault);
    assert_eq!(table.binding(14).unwrap().handler, Handler::PageFault);
}

#[test]
fn bind_hardware_follows_the_offsets() {
    let pics = ChainedPics::new(0x50, 0x20).unwrap();
    let table = VectorTable::build(CODE).bind_hardware(&pics);
    assert_eq!(table.binding(0x50).unwrap().handler, Handler::Timer);
    assert_eq!(table.binding(0x51).unwrap().handler, Handler::Keyboard);
    assert_eq!(table.binding(32), None);
    assert_eq!(table.binding(33), None);
}

#[test]
fn handlers_and_their_lines() {
    assert_eq!(Handler::Timer.line(), Some(0));
    assert_eq!(Handler::Keyboard.line(), Some(1));
    assert_eq!(Handler::Breakpoint.line(), None);
    assert_eq!(Handler::DoubleFault.line(), None);
    assert_eq!(Handler::PageFault.line(), None);
    assert_eq!(Interrupt::Breakpoint.handler(), Handler::Breakpoint);
    assert_eq!(Interrupt::Timer.handler(), Handler::Timer);
    assert_eq!(Interrupt::Keyboard { scancode: 1 }.handler(), Handler::Keyboard);
    assert_eq!(Interrupt::DoubleFault { error_code: 0 }.handler(), Handler::DoubleFault);
    assert_eq!(
        Interrupt::PageFault { address: 0, error_code: 0 }.handler(),
        Handler::PageFault
    );
    assert_eq!(KEYBOARD_DATA_PORT, 0x60);
}

#[test]
fn breakpoint_is_logged_and_resumes() {
    let mut kernel = state(Mode::AutomatedTest);
    let response = kernel.handle(Interrupt::Breakpoint);
    assert_eq!(response.notice, Notice::Breakpoint);
    assert_eq!(response.channels, LogChannels { console: false, serial: true });
    assert!(response.acknowledge.is_empty());
    assert_eq!(response.exit, None);
    assert_eq!(response.disposition, Disposition::Resume);
    assert_eq!(kernel.ticks, 0);

    let mut kernel = state(Mode::Interactive);
    let response = kernel.handle(Interrupt::Breakpoint);
    assert_eq!(response.channels, LogChannels { console: true, serial: true });
    assert_eq!(response.exit, None);
    assert_eq!(response.disposition, Disposition::Resume);
}

#[test]
fn execution_goes_on_after_a_breakpoint() {
    let mut kernel = state(Mode::AutomatedTest);
    assert_eq!(kernel.handle(Interrupt::Breakpoint).disposition, Disposition::Resume);
    assert_eq!(kernel.handle(Interrupt::Timer).disposition, Disposition::Resume);
    assert_eq!(kernel.handle(Interrupt::Breakpoint).disposition, Disposition::Resume);
    assert_eq!(kernel.ticks, 1);
}

#[test]
fn page_fault_is_logged_with_address_and_flags_and_halts() {
    let mut kernel = state(Mode::Interactive);
    let response = kernel.handle(Interrupt::PageFault { address: 0xdead_beaf, error_code: 0b10 });
    assert_eq!(
        response.notice,
        Notice::PageFault {
            address: 0xdead_beaf,
            flags: PageFaultFlags {
                protection_violation: false,
                caused_by_write: true,
                user_mode: false,
                malformed_table: false,
                instruction_fetch: false,
            },
        }
    );
    assert_eq!(response.channels, LogChannels { console: true, serial: true });
    assert!(response.acknowledge.is_empty());
    assert_eq!(response.exit, None);
    assert_eq!(response.disposition, Disposition::Halt);
}

#[test]
fn page_fault_ends_an_automated_run_with_failure() {
    let mut kernel = state(Mode::AutomatedTest);
    let response = kernel.handle(Interrupt::PageFault { address: 0, error_code: 0 });
    assert_eq!(response.channels, LogChannels { console: false, serial: true });
    assert_eq!(response.exit, Some(FAILURE));
    assert_eq!(response.disposition, Disposition::Halt);
}

#[test]
fn page_fault_flags_bit_by_bit() {
    let none = PageFaultFlags {
        protection_violation: false,
        caused_by_write: false,
        user_mode: false,
        malformed_table: false,
        instruction_fetch: false,
    };
    assert_eq!(PageFaultFlags::decode(0), none);
    assert_eq!(PageFaultFlags::decode(1), PageFaultFlags { protection_violation: true, ..none });
    assert_eq!(PageFaultFlags::decode(2), PageFaultFlags { caused_by_write: true, ..none });
    assert_eq!(PageFaultFlags::decode(4), PageFaultFlags { user_mode: true, ..none });
    assert_eq!(PageFaultFlags::decode(8), PageFaultFlags { malformed_table: true, ..none });
    assert_eq!(PageFaultFlags::decode(16), PageFaultFlags { instruction_fetch: true, ..none });
    assert_eq!(PageFaultFlags::decode(32), none);
    assert_eq!(PageFaultFlags::decode(1 << 63), none);
    assert_eq!(
        PageFaultFlags::decode(0x1f),
        PageFaultFlags {
            protection_violation: true,
            caused_by_write: true,
            user_mode: true,
            malformed_table: true,
            instruction_fetch: true,
        }
    );
    assert_eq!(PageFaultFlags::decode(u64::MAX), PageFaultFlags::decode(0x1f));
    for code in 0..64u64 {
        let flags = x86_64::structures::idt::PageFaultErrorCode::from_bits_truncate(code);
        let decoded = PageFaultFlags::decode(code);
        assert_eq!(
            decoded.protection_violation,
            flags.contains(x86_64::structures::idt::PageFaultErrorCode::PROTECTION_VIOLATION)
        );
        assert_eq!(
            decoded.caused_by_write,
            flags.contains(x86_64::structures::idt::PageFaultErrorCode::CAUSED_BY_WRITE)
        );
        assert_eq!(
            decoded.user_mode,
            flags.contains(x86_64::structures::idt::PageFaultErrorCode::USER_MODE)
        );
        assert_eq!(
            decoded.malformed_table,
            flags.contains(x86_64::structures::idt::PageFaultErrorCode::MALFORMED_TABLE)
        );
        assert_eq!(
            decoded.instruction_fetch,
            flags.contains(x86_64::structures::idt::PageFaultErrorCode::INSTRUCTION_FETCH)
        );
    }
}

#[test]
fn double_fault_is_logged_on_serial_only_and_halts() {
    for mode in [Mode::Interactive, Mode::AutomatedTest] {
        let mut kernel = state(mode);
        let response = kernel.handle(Interrupt::DoubleFault { error_code: 0 });
        assert_eq!(response.notice, Notice::DoubleFault { error_code: 0 });
        assert_eq!(response.channels, LogChannels { console: false, serial: true });
        assert!(response.acknowledge.is_empty());
        assert_eq!(response.disposition, Disposition::Halt);
        let exit = if mode == Mode::AutomatedTest { Some(FAILURE) } else { None };
        assert_eq!(response.exit, exit);
    }
}

#[test]
fn stack_overflow_ends_in_a_logged_double_fault() {
    let table = VectorTable::build(CODE).bind_hardware(&ChainedPics::standard());
    let binding = table.binding(DOUBLE_FAULT_VECTOR).unwrap();
    assert_eq!(binding.handler, Handler::DoubleFault);
    assert_eq!(binding.stack_index, Some(kernel_bootstrap::gdt::DOUBLE_FAULT_IST_INDEX));
    let tss = kernel_bootstrap::gdt::TaskState::new(0x20_0000).unwrap();
    assert_eq!(tss.interrupt_stack(binding.stack_index.unwrap()), Some(0x20_0000 + 4096 * 5));
    assert_eq!(tss.emergency_stack(), 0x20_0000 + 4096 * 5);
    let mut kernel = state(Mode::AutomatedTest);
    let response = kernel.handle(Interrupt::DoubleFault { error_code: 0 });
    assert!(response.channels.serial);
    assert!(!response.channels.console);
    assert_eq!(response.disposition, Disposition::Halt);
}

#[test]
fn timer_is_counted_and_acknowledged() {
    let mut kernel = state(Mode::Interactive);
    let response = kernel.handle(Interrupt::Timer);
    assert_eq!(response.notice, Notice::Silent);
    assert_eq!(response.channels, LogChannels { console: false, serial: false });
    assert_eq!(response.acknowledge, vec![END_OF_INTERRUPT]);
    assert_eq!(response.exit, None);
    assert_eq!(response.disposition, Disposition::Resume);
    assert_eq!(kernel.ticks, 1);
    assert_eq!(kernel.last_scancode, None);
}

#[test]
fn second_timer_interrupt_is_acknowledged_too() {
    let mut kernel = state(Mode::AutomatedTest);
    for tick in 1..=5u64 {
        let response = kernel.handle(Interrupt::Timer);
        assert_eq!(response.acknowledge, vec![END_OF_INTERRUPT]);
        assert_eq!(response.disposition, Disposition::Resume);
        assert_eq!(kernel.ticks, tick);
    }
}

#[test]
fn tick_count_starts_over_after_the_largest() {
    let mut kernel = state(Mode::Interactive);
    kernel.ticks = u64::MAX - 1;
    kernel.handle(Interrupt::Timer);
    assert_eq!(kernel.ticks, u64::MAX);
    let response = kernel.handle(Interrupt::Timer);
    assert_eq!(kernel.ticks, 0);
    assert_eq!(response.acknowledge, vec![END_OF_INTERRUPT]);
}

#[test]
fn keyboard_keeps_the_scan_code_and_acknowledges() {
    let mut kernel = state(Mode::Interactive);
    let response = kernel.handle(Interrupt::Keyboard { scancode: 0x1e });
    assert_eq!(response.notice, Notice::Silent);
    assert_eq!(response.acknowledge, vec![END_OF_INTERRUPT]);
    assert_eq!(response.disposition, Disposition::Resume);
    assert_eq!(kernel.last_scancode, Some(0x1e));
    assert_eq!(kernel.ticks, 0);
    kernel.handle(Interrupt::Keyboard { scancode: 0x9e });
    assert_eq!(kernel.last_scancode, Some(0x9e));
    kernel.handle(Interrupt::Timer);
    assert_eq!(kernel.last_scancode, Some(0x9e));
}

#[test]
fn handlers_leave_mode_and_controllers_alone() {
    let pics = ChainedPics::new(0x40, 0x60).unwrap();
    let mut kernel = InterruptState::new(Mode::AutomatedTest, pics);
    kernel.handle(Interrupt::Timer);
    kernel.handle(Interrupt::Breakpoint);
    kernel.handle(Interrupt::Keyboard { scancode: 3 });
    assert_eq!(kernel.mode, Mode::AutomatedTest);
    assert_eq!(kernel.pics, pics);
}

#[test]
fn flags_are_described_by_name() {
    let none = PageFaultFlags::decode(0);
    assert_eq!(describe_flags(&none), "(none)");
    assert_eq!(describe_flags(&PageFaultFlags::decode(1)), "PROTECTION_VIOLATION");
    assert_eq!(describe_flags(&PageFaultFlags::decode(2)), "CAUSED_BY_WRITE");
    assert_eq!(describe_flags(&PageFaultFlags::decode(4)), "USER_MODE");
    assert_eq!(describe_flags(&PageFaultFlags::decode(8)), "MALFORMED_TABLE");
    assert_eq!(describe_flags(&PageFaultFlags::decode(16)), "INSTRUCTION_FETCH");
    assert_eq!(describe_flags(&PageFaultFlags::decode(3)), "PROTECTION_VIOLATION | CAUSED_BY_WRITE");
    assert_eq!(describe_flags(&PageFaultFlags::decode(0x12)), "CAUSED_BY_WRITE | INSTRUCTION_FETCH");
    assert_eq!(
        describe_flags(&PageFaultFlags::decode(0x1f)),
        "PROTECTION_VIOLATION | CAUSED_BY_WRITE | USER_MODE | MALFORMED_TABLE | INSTRUCTION_FETCH"
    );
}

#[test]
fn notices_as_text() {
    assert_eq!(Notice::Silent.message(), "");
    assert_eq!(Notice::Breakpoint.message(), "EXCEPTION: BREAKPOINT\n");
    assert_eq!(
        Notice::DoubleFault { error_code: 0 }.message(),
        "EXCEPTION: DOUBLE FAULT\nError Code: 0x0\n"
    );
    assert_eq!(
        Notice::PageFault { address: 0xdead_beaf, flags: PageFaultFlags::decode(2) }.message(),
        "EXCEPTION: PAGE FAULT\nAccessed Address: 0xdeadbeaf\nError Code: CAUSED_BY_WRITE\n"
    );
    assert_eq!(
        Notice::PageFault { address: 0, flags: PageFaultFlags::decode(0) }.message(),
        "EXCEPTION: PAGE FAULT\nAccessed Address: 0x0\nError Code: (none)\n"
    );
}

#[test]
fn response_carries_the_text_of_its_fault() {
    let mut kernel = state(Mode::AutomatedTest);
    let response = kernel.handle(Interrupt::PageFault { address: 0x2031b2, error_code: 0b101 });
    assert_eq!(
        response.notice.message(),
        "EXCEPTION: PAGE FAULT\nAccessed Address: 0x2031b2\n\
         Error Code: PROTECTION_VIOLATION | USER_MODE\n"
    );
    let response = kernel.handle(Interrupt::Timer);
    assert_eq!(response.notice.message(), "");
}
