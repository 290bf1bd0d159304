use kernel_bootstrap::harness::{
    announce, outcome_line, starting, test_panic_handler, test_runner, trivial_assertion_failed,
    trivial_assertion_success, EqualityCheck, TestOutcome, Testable,
};
use kernel_bootstrap::machine::{PortValue, PortWrite};

const SUCCESS: PortWrite = PortWrite { port: 0xf4, value: PortValue::Long(0x10) };
const FAILURE: PortWrite = PortWrite { port: 0xf4, value: PortValue::Long(0x11) };

struct Fixed {
    name: &'static str,
    failure: Option<&'static str>,
}

impl Testable for Fixed {
    fn name(&self) -> String {
        self.name.to_string()
    }

    fn run(&self) -> TestOutcome {
        match self.failure {
            None => TestOutcome::Passed,
            Some(detail) => TestOutcome::Failed(detail.to_string()),
        }
    }
}

fn passing(name: &'static str) -> Fixed {
    Fixed { name, failure: None }
}

fn failing(name: &'static str, detail: &'static str) -> Fixed {
    Fixed { name, failure: Some(detail) }
}

#[test]
fn all_tests_pass_reports_success() {
    let a = passing("first");
    let b = passing("second");
    let tests: [&dyn Testable; 2] = [&a, &b];
    let report = test_runner(&tests);
    assert_eq!(report.records.len(), 2);
    assert_eq!(report.records[0].name, "first");
    assert_eq!(report.records[1].name, "second");
    assert!(matches!(report.records[0].outcome, TestOutcome::Passed));
    assert!(matches!(report.records[1].outcome, TestOutcome::Passed));
    assert_eq!(report.log, "Running 2 tests\nfirst...\t\n[ok]\nsecond...\t\n[ok]\n");
    assert_eq!(report.exit, SUCCESS);
}

#[test]
fn no_tests_reports_success() {
    let tests: [&dyn Testable; 0] = [];
    let report = test_runner(&tests);
    assert!(report.records.is_empty());
    assert_eq!(report.log, "Running 0 tests\n");
    assert_eq!(report.exit, SUCCESS);
}

#[test]
fn first_failure_skips_the_rest() {
    let a = passing("boots");
    let b = failing("breaks", "it broke");
    let c = passing("never_runs");
    let tests: [&dyn Testable; 3] = [&a, &b, &c];
    let report = test_runner(&tests);
    assert_eq!(report.records.len(), 2);
    assert_eq!(report.records[1].name, "breaks");
    match &report.records[1].outcome {
        TestOutcome::Failed(detail) => assert_eq!(detail, "it broke"),
        TestOutcome::Passed => panic!("the second test fails"),
    }
    assert_eq!(
        report.log,
        "Running 3 tests\nboots...\t\n[ok]\nbreaks...\t\n[failed]\nError: it broke\n\n"
    );
    assert_eq!(report.exit, FAILURE);
}

#[test]
fn failure_of_the_last_test_reports_failure() {
    let a = passing("one");
    let b = failing("two", "no");
    let tests: [&dyn Testable; 2] = [&a, &b];
    let report = test_runner(&tests);
    assert_eq!(report.records.len(), 2);
    assert_eq!(report.exit, FAILURE);
}

#[test]
fn failure_of_the_first_test_runs_nothing_else() {
    let a = failing("one", "early");
    let b = passing("two");
    let tests: [&dyn Testable; 2] = [&a, &b];
    let report = test_runner(&tests);
    assert_eq!(report.records.len(), 1);
    assert_eq!(report.log, "Running 2 tests\none...\t\n[failed]\nError: early\n\n");
    assert_eq!(report.exit, FAILURE);
}

#[test]
fn runner_counts_in_decimal() {
    let one = passing("t");
    let tests: Vec<&dyn Testable> = (0..12).map(|_| &one as &dyn Testable).collect();
    let report = test_runner(&tests);
    assert_eq!(report.records.len(), 12);
    assert!(report.log.starts_with("Running 12 tests\nt...\t\n[ok]\n"));
    assert_eq!(report.log.len(), "Running 12 tests\n".len() + 12 * "t...\t\n[ok]\n".len());
    assert_eq!(report.exit, SUCCESS);
}

#[test]
fn runner_takes_tests_of_one_type() {
    let a = trivial_assertion_success();
    let b = trivial_assertion_success();
    let tests: [&EqualityCheck; 2] = [&a, &b];
    let report = test_runner(&tests);
    assert_eq!(report.records.len(), 2);
    assert_eq!(report.exit, SUCCESS);
}

#[test]
fn trivial_assertions_through_the_runner() {
    let failed = trivial_assertion_failed();
    let success = trivial_assertion_success();
    let tests: [&dyn Testable; 2] = [&failed, &success];
    let report = test_runner(&tests);
    assert_eq!(report.records.len(), 1);
    assert_eq!(
        report.log,
        "Running 2 tests\ntrivial_assertion_failed...\t\n[failed]\n\
         Error: assertion `left == right` failed\n  left: 0\n right: 1\n\n"
    );
    assert_eq!(report.exit, FAILURE);

    let tests: [&dyn Testable; 2] = [&success, &failed];
    let report = test_runner(&tests);
    assert_eq!(report.records.len(), 2);
    assert!(report.log.starts_with("Running 2 tests\ntrivial_assertion_success...\t\n[ok]\n"));
    assert_eq!(report.exit, FAILURE);
}

#[test]
fn trivial_assertion_success_passes() {
    let check = trivial_assertion_success();
    assert_eq!(check.name(), "trivial_assertion_success");
    assert_eq!((check.left, check.right), (1, 1));
    assert!(matches!(check.run(), TestOutcome::Passed));
}

#[test]
fn trivial_assertion_failed_fails() {
    let check = trivial_assertion_failed();
    assert_eq!(check.name(), "trivial_assertion_failed");
    assert_eq!((check.left, check.right), (0, 1));
    match check.run() {
        TestOutcome::Failed(detail) => {
            assert_eq!(detail, "assertion `left == right` failed\n  left: 0\n right: 1")
        }
        TestOutcome::Passed => panic!("0 is not 1"),
    }
}

#[test]
fn equality_check_names_both_numbers() {
    let check = EqualityCheck { name: "sizes".to_string(), left: 4096, right: 20480 };
    match check.run() {
        TestOutcome::Failed(detail) => {
            assert_eq!(detail, "assertion `left == right` failed\n  left: 4096\n right: 20480")
        }
        TestOutcome::Passed => panic!("the numbers differ"),
    }
    let check = EqualityCheck { name: "sizes".to_string(), left: u64::MAX, right: u64::MAX };
    assert!(matches!(check.run(), TestOutcome::Passed));
}

#[test]
fn announce_writes_the_count() {
    assert_eq!(announce(0), "Running 0 tests\n");
    assert_eq!(announce(1), "Running 1 tests\n");
    assert_eq!(announce(10), "Running 10 tests\n");
    assert_eq!(announce(307), "Running 307 tests\n");
}

#[test]
fn starting_line_ends_in_dots_and_tab() {
    assert_eq!(starting("kernel::boots"), "kernel::boots...\t\n");
    assert_eq!(starting(""), "...\t\n");
}

#[test]
fn outcome_line_of_each_outcome() {
    assert_eq!(outcome_line(&TestOutcome::Passed), "[ok]\n");
    assert_eq!(
        outcome_line(&TestOutcome::Failed("stack overflow".to_string())),
        "[failed]\nError: stack overflow\n\n"
    );
    assert_eq!(outcome_line(&TestOutcome::Failed(String::new())), "[failed]\nError: \n\n");
}

#[test]
fn panic_handler_logs_and_reports_failure() {
    let report = test_panic_handler("panicked at src/main.rs:36:5");
    assert_eq!(report.log, "[failed]\nError: panicked at src/main.rs:36:5\n\n");
    assert_eq!(report.exit, FAILURE);
}

#[test]
fn panic_handler_agrees_with_the_runner() {
    let a = failing("t", "detail");
    let tests: [&dyn Testable; 1] = [&a];
    let report = test_runner(&tests);
    let failure = test_panic_handler("detail");
    assert_eq!(report.log, format!("Running 1 tests\nt...\t\n{}", failure.log));
    assert_eq!(report.exit, failure.exit);
}
