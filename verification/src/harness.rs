//! The test harness: runs the registered tests in order, writes the log
//! for the serial channel and decides the exit signal.

use vstd::prelude::*;
use vstd::string::StringExecFns;
use crate::exit::{exit_qemu, exit_write, QemuExitCode};
use crate::machine::PortWrite;
use crate::text::{decimal, to_decimal};

verus! {

/// How one test ended.
#[derive(Debug, Clone, PartialEq, Eq)]
pub enum TestOutcome {
    /// The test ran to its end.
    Passed,
    /// The test failed; the text is the failure's detail.
    Failed(String),
}

/// A test that the harness can run.
pub trait Testable {
    /// Whether the test can be logged under `name`. A test that does not
    /// say accepts any name.
    open spec fn may_be_named(&self, name: Seq<char>) -> bool {
        true
    }

    /// Whether a run of the test can end with `outcome`. A test that does
    /// not say can end either way.
    open spec fn may_end_with(&self, outcome: TestOutcome) -> bool {
        true
    }

    /// The name under which the test is logged.
    fn name(&self) -> (name: String)
        ensures
            self.may_be_named(name@),
    ;

    /// Runs the test once.
    fn run(&self) -> (outcome: TestOutcome)
        ensures
            self.may_end_with(outcome),
    ;
}

/// One test that ran, with how it ended.
#[derive(Debug, Clone, PartialEq, Eq)]
pub struct TestRecord {
    pub name: String,
    pub outcome: TestOutcome,
}

/// What a run of the harness produced.
#[derive(Debug, Clone, PartialEq, Eq)]
pub struct TestReport {
    /// The tests that ran, in order.
    pub records: Vec<TestRecord>,
    /// The text for the serial channel.
    pub log: String,
    /// The exit signal that ends the run.
    pub exit: PortWrite,
}

/// The line that opens the log.
pub open spec fn announcement(total: nat) -> Seq<char> {
    "Running "@ + decimal(total) + " tests\n"@
}

/// The line logged before a test runs.
pub open spec fn start_text(name: Seq<char>) -> Seq<char> {
    name + "...\t\n"@
}

/// The text logged for a failure with the given detail.
pub open spec fn failure_text(detail: Seq<char>) -> Seq<char> {
    "[failed]\n"@ + "Error: "@ + detail + "\n\n"@
}

/// The text logged once a test has ended.
pub open spec fn outcome_text(outcome: TestOutcome) -> Seq<char> {
    match outcome {
        TestOutcome::Passed => "[ok]\n"@,
        TestOutcome::Failed(detail) => failure_text(detail@),
    }
}

/// Everything logged for one test.
pub open spec fn record_text(record: TestRecord) -> Seq<char> {
    start_text(record.name@) + outcome_text(record.outcome)
}

/// Everything logged for the tests that ran, in order.
pub open spec fn records_text(records: Seq<TestRecord>) -> Seq<char>
    decreases records.len(),
{
    if records.len() == 0 {
        Seq::empty()
    } else {
        records_text(records.drop_last()) + record_text(records.last())
    }
}

/// The whole log of a run over `total` registered tests.
pub open spec fn transcript(total: nat, records: Seq<TestRecord>) -> Seq<char> {
    announcement(total) + records_text(records)
}

/// Whether the first `count` tests on record passed.
pub open spec fn passed_before(records: Seq<TestRecord>, count: int) -> bool {
    forall|i: int| 0 <= i < count && i < records.len() ==> (#[trigger] records[i]).outcome is Passed
}

/// Whether every test on record passed.
pub open spec fn all_passed(records: Seq<TestRecord>) -> bool {
    passed_before(records, records.len() as int)
}

/// The exit code that the records call for.
pub open spec fn verdict(records: Seq<TestRecord>) -> QemuExitCode {
    if all_passed(records) {
        QemuExitCode::Success
    } else {
        QemuExitCode::Failed
    }
}

/// The records of a run over `total` tests that stopped at the first
/// failure: only the last test on record can have failed, and the run is
/// shorter than the list only if it did.
pub open spec fn stops_at_first_failure(total: nat, records: Seq<TestRecord>) -> bool {
    &&& records.len() <= total
    &&& passed_before(records, records.len() - 1)
    &&& records.len() < total ==> records.len() > 0 && records.last().outcome is Failed
}

/// The first line of the log: how many tests are registered.
pub fn announce(total: usize) -> (line: String)
    ensures
        line@ == announcement(total as nat),
{
    let mut line = String::from_str("Running ");
    let count = to_decimal(total as u64);
    line.append(count.as_str());
    line.append(" tests\n");
    line
}

/// The line logged before the test called `name` runs.
pub fn starting(name: &str) -> (line: String)
    ensures
        line@ == start_text(name@),
{
    let mut line = String::from_str(name);
    line.append("...\t\n");
    line
}

/// The text logged once a test has ended with `outcome`.
pub fn outcome_line(outcome: &TestOutcome) -> (line: String)
    ensures
        line@ == outcome_text(*outcome),
{
    match outcome {
        TestOutcome::Passed => String::from_str("[ok]\n"),
        TestOutcome::Failed(detail) => failure_line(detail.as_str()),
    }
}

/// The text logged for a failure with the given detail.
pub fn failure_line(detail: &str) -> (line: String)
    ensures
        line@ == failure_text(detail@),
{
    let mut line = String::from_str("[failed]\n");
    line.append("Error: ");
    line.append(detail);
    line.append("\n\n");
    assert(line@ =~= failure_text(detail@));
    line
}

/// What is left to do once a test has failed.
#[derive(Debug, Clone, PartialEq, Eq)]
pub struct FailureReport {
    /// The text for the serial channel.
    pub log: String,
    /// The exit signal that ends the run.
    pub exit: PortWrite,
}

/// Handles a failure with the given detail: logs it and reports failure
/// to the emulator. The machine is halted after the exit signal.
pub fn test_panic_handler(detail: &str) -> (report: FailureReport)
    ensures
        report.log@ == failure_text(detail@),
        report.exit == exit_write(QemuExitCode::Failed),
{
    FailureReport { log: failure_line(detail), exit: exit_qemu(QemuExitCode::Failed) }
}

/// Runs the tests in order until one fails or all have passed. The log
/// opens with the number of tests and holds, for each test that ran, its
/// name and then its outcome; a failure is logged with its detail and
/// ends the run. The exit signal reports success if every test passed
/// and failure otherwise.
pub fn test_runner<T: Testable + ?Sized>(tests: &[&T]) -> (report: TestReport)
    ensures
        stops_at_first_failure(tests@.len(), report.records@),
        forall|i: int|
            0 <= i < report.records@.len() ==> {
                &&& tests@[i].may_be_named((#[trigger] report.records@[i]).name@)
                &&& tests@[i].may_end_with(report.records@[i].outcome)
            },
        report.log@ == transcript(tests@.len(), report.records@),
        report.exit == exit_write(verdict(report.records@)),
{
    let total = tests.len();
    let mut log = announce(total);
    let mut records: Vec<TestRecord> = Vec::new();
    let mut failed = false;
    let mut i: usize = 0;
    while i < total && !failed
        invariant
            total == tests@.len(),
            i == records@.len(),
            i <= total,
            failed ==> i > 0 && records@.last().outcome is Failed,
            !failed ==> all_passed(records@),
            passed_before(records@, records@.len() - 1),
            forall|j: int|
                0 <= j < records@.len() ==> {
                    &&& tests@[j].may_be_named((#[trigger] records@[j]).name@)
                    &&& tests@[j].may_end_with(records@[j].outcome)
                },
            log@ == transcript(total as nat, records@),
        decreases total - i, if failed { 0int } else { 1int },
    {
        let name = tests[i].name();
        let outcome = tests[i].run();
        let start = starting(name.as_str());
        let end = outcome_line(&outcome);
        log.append(start.as_str());
        log.append(end.as_str());
        if let TestOutcome::Failed(_) = &outcome {
            failed = true;
        }
        let record = TestRecord { name, outcome };
        proof {
            let before = records@;
            let after = before.push(record);
            assert(after.drop_last() =~= before);
            assert(after.last() == record);
            assert(log@ =~= transcript(total as nat, after));
        }
        records.push(record);
        i = i + 1;
    }
    let code = if failed {
        QemuExitCode::Failed
    } else {
        QemuExitCode::Success
    };
    TestReport { records, log, exit: exit_qemu(code) }
}

/// A test that holds if two numbers are equal.
#[derive(Debug, Clone, PartialEq, Eq)]
pub struct EqualityCheck {
    pub name: String,
    pub left: u64,
    pub right: u64,
}

/// The detail of a failed equality check.
pub open spec fn mismatch_text(left: u64, right: u64) -> Seq<char> {
    "assertion `left == right` failed\n  left: "@ + decimal(left as nat) + "\n right: "@
        + decimal(right as nat)
}

impl EqualityCheck {
    /// The outcome of the check: passed if the numbers are equal, else
    /// failed with both numbers in the detail.
    pub open spec fn holds(&self, outcome: TestOutcome) -> bool {
        match outcome {
            TestOutcome::Passed => self.left == self.right,
            TestOutcome::Failed(detail) => self.left != self.right && detail@ == mismatch_text(
                self.left,
                self.right,
            ),
        }
    }
}

impl Testable for EqualityCheck {
    open spec fn may_be_named(&self, name: Seq<char>) -> bool {
        name == self.name@
    }

    open spec fn may_end_with(&self, outcome: TestOutcome) -> bool {
        self.holds(outcome)
    }

    fn name(&self) -> (name: String) {
        self.name.clone()
    }

    fn run(&self) -> (outcome: TestOutcome) {
        if self.left == self.right {
            TestOutcome::Passed
        } else {
            let mut detail = String::from_str("assertion `left == right` failed\n  left: ");
            let left = to_decimal(self.left);
            let right = to_decimal(self.right);
            detail.append(left.as_str());
            detail.append("\n right: ");
            detail.append(right.as_str());
            assert(detail@ =~= mismatch_text(self.left, self.right));
            TestOutcome::Failed(detail)
        }
    }
}

/// The check that 0 equals 1, which fails.
pub fn trivial_assertion_failed() -> (check: EqualityCheck)
    ensures
        check.name@ == "trivial_assertion_failed"@,
        check.left == 0,
        check.right == 1,
{
    EqualityCheck { name: String::from_str("trivial_assertion_failed"), left: 0, right: 1 }
}

/// The check that 1 equals 1, which passes.
pub fn trivial_assertion_success() -> (check: EqualityCheck)
    ensures
        check.name@ == "trivial_assertion_success"@,
        check.left == 1,
        check.right == 1,
{
    EqualityCheck { name: String::from_str("trivial_assertion_success"), left: 1, right: 1 }
}

} // verus!
