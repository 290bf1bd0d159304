//! The exit signal that ends an automated run inside the emulator.

use vstd::prelude::*;
use crate::machine::{PortValue, PortWrite};

verus! {

/// Port of the emulator's exit device.
pub const QEMU_ISA_DEVICE_PORT: u16 = 0xf4;

/// Outcome of an automated run, as reported to the emulator.
#[derive(Debug, Clone, Copy, PartialEq, Eq, Structural)]
pub enum QemuExitCode {
    Success,
    Failed,
}

impl QemuExitCode {
    /// The 32-bit code written to the exit device.
    pub open spec fn spec_code(self) -> u32 {
        match self {
            QemuExitCode::Success => 0x10,
            QemuExitCode::Failed => 0x11,
        }
    }

    /// The 32-bit code written to the exit device.
    #[verifier::when_used_as_spec(spec_code)]
    pub fn code(self) -> (c: u32)
        ensures
            c == self.spec_code(),
    {
        match self {
            QemuExitCode::Success => 0x10,
            QemuExitCode::Failed => 0x11,
        }
    }
}

/// The port write that reports `exit_code` and ends the run.
pub open spec fn exit_write(exit_code: QemuExitCode) -> PortWrite {
    PortWrite { port: QEMU_ISA_DEVICE_PORT, value: PortValue::Long(exit_code.spec_code()) }
}

/// Reports `exit_code` to the emulator: the returned write is the last
/// thing the caller does.
pub fn exit_qemu(exit_code: QemuExitCode) -> (write: PortWrite)
    ensures
        write == exit_write(exit_code),
{
    PortWrite::long(QEMU_ISA_DEVICE_PORT, exit_code.code())
}

/// The two codes differ, and neither is one the emulator uses by itself
/// (0 and 1).
pub proof fn lemma_exit_codes_distinct(a: QemuExitCode, b: QemuExitCode)
    ensures
        a != b ==> a.spec_code() != b.spec_code(),
        a.spec_code() != 0,
        a.spec_code() != 1,
{
}

} // verus!
