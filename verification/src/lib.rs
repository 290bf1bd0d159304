//! Protection and fault-handling bootstrap of a bare-metal x86-64 kernel.
//!
//! The library decides; the program around it touches the hardware. What
//! is to be done to the machine comes back as plain data, which the
//! caller carries out in the order given:
//!
//! - `gdt` builds the descriptor table and the task state with its
//!   emergency stack;
//! - `interrupts` builds the vector table and holds the policy of the
//!   handlers;
//! - `pic` drives the pair of interrupt controllers;
//! - `boot` puts these together into the init sequence;
//! - `exit` and `harness` run the tests and report to the emulator;
//! - `machine` holds the steps and port writes that come back.

pub mod boot;
pub mod exit;
pub mod gdt;
pub mod harness;
pub mod interrupts;
pub mod machine;
pub mod pic;
pub mod text;

pub use boot::init;
pub use exit::{exit_qemu, QemuExitCode};
pub use harness::{test_panic_handler, test_runner, Testable};
pub use machine::{PortValue, PortWrite, Step};
