//! What the caller does to the machine, as data: writes to I/O ports and
//! the steps that load the processor's tables.

use vstd::prelude::*;
use crate::gdt::SegmentSelector;

verus! {

/// The value of one port write, together with its width.
#[derive(Debug, Clone, Copy, PartialEq, Eq, Structural)]
pub enum PortValue {
    /// An 8-bit write.
    Byte(u8),
    /// A 32-bit write.
    Long(u32),
}

/// One write to an I/O port, to be issued by the caller.
#[derive(Debug, Clone, Copy, PartialEq, Eq, Structural)]
pub struct PortWrite {
    pub port: u16,
    pub value: PortValue,
}

impl PortWrite {
    /// An 8-bit write of `value` to `port`.
    pub fn byte(port: u16, value: u8) -> (w: PortWrite)
        ensures
            w == (PortWrite { port, value: PortValue::Byte(value) }),
    {
        PortWrite { port, value: PortValue::Byte(value) }
    }

    /// A 32-bit write of `value` to `port`.
    pub fn long(port: u16, value: u32) -> (w: PortWrite)
        ensures
            w == (PortWrite { port, value: PortValue::Long(value) }),
    {
        PortWrite { port, value: PortValue::Long(value) }
    }
}

/// One thing that the caller does to the machine.
#[derive(Debug, Clone, Copy, PartialEq, Eq, Structural)]
pub enum Step {
    /// Load the descriptor table into the processor.
    LoadDescriptorTable,
    /// Reload the code segment register with the selector.
    SetCodeSegment(SegmentSelector),
    /// Load the task register with the selector.
    LoadTaskRegister(SegmentSelector),
    /// Load the vector table into the processor.
    LoadVectorTable,
    /// Write to an I/O port.
    Write(PortWrite),
    /// Enable the delivery of interrupts.
    EnableInterrupts,
}

/// The steps that issue `writes` in order.
pub open spec fn write_steps(writes: Seq<PortWrite>) -> Seq<Step> {
    Seq::new(writes.len(), |i: int| Step::Write(writes[i]))
}

} // verus!
