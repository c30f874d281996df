//! End-to-end tests of the runner through toolchain and sink doubles.

use std::cell::RefCell;

use vstd::seq::Seq;

use nargo_test_runner::aggregator::run_package_tests;
use nargo_test_runner::capability::{StatusSink, Toolchain};
use nargo_test_runner::driver::run;
use nargo_test_runner::executor::run_test;
use nargo_test_runner::model::{
    CompileOptions, CompiledProgram, ExecutionOutcome, Package, ProgramUnit, RunError,
    TestFunction, TestStatus,
};

/// A deterministic toolchain double over `u64` circuits: the circuit of a
/// test is its function identifier, and tables of identifiers decide each
/// capability's answer.  Every call is logged.
struct FakeToolchain {
    packages: Vec<(String, Option<Vec<(String, u64)>>)>,
    compile_fail: Vec<u64>,
    optimize_fail: Vec<u64>,
    execute_fail: Vec<u64>,
    calls: RefCell<Vec<String>>,
}

impl FakeToolchain {
    fn single_package(tests: Vec<(&str, u64)>) -> FakeToolchain {
        FakeToolchain {
            packages: vec![(
                "pkg".to_string(),
                Some(tests.iter().map(|(n, i)| (n.to_string(), *i)).collect()),
            )],
            compile_fail: Vec::new(),
            optimize_fail: Vec::new(),
            execute_fail: Vec::new(),
            calls: RefCell::new(Vec::new()),
        }
    }

    fn log(&self) -> Vec<String> {
        self.calls.borrow().clone()
    }
}

impl Toolchain<u64> for FakeToolchain {
    // The `*_spec` members are the trait's ghost model; they are never
    // called at run time.
    fn load_spec(&self, _package: Seq<char>, _deny_warnings: bool) -> Option<Seq<(Seq<char>, u64)>> {
        unreachable!()
    }

    fn compile_spec(
        &self,
        _package: Seq<char>,
        _id: u64,
        _show_output: bool,
        _options: CompileOptions,
    ) -> Result<(u64, Seq<char>), Seq<char>> {
        unreachable!()
    }

    fn optimize_spec(&self, _circuit: u64) -> Option<u64> {
        unreachable!()
    }

    fn execute_spec(&self, _circuit: u64) -> Option<Seq<char>> {
        unreachable!()
    }

    fn load_package(&self, package: &Package, _deny_warnings: bool) -> Option<ProgramUnit> {
        self.calls.borrow_mut().push(format!("load:{}", package.name));
        for (name, unit) in &self.packages {
            if *name == package.name {
                return unit.as_ref().map(|tests| ProgramUnit {
                    tests: tests
                        .iter()
                        .map(|(n, id)| TestFunction {
                            name: n.clone(),
                            id: *id,
                        })
                        .collect(),
                });
            }
        }
        None
    }

    fn compile(
        &self,
        _package: &Package,
        id: u64,
        _show_output: bool,
        _options: &CompileOptions,
    ) -> Result<CompiledProgram<u64>, String> {
        self.calls.borrow_mut().push(format!("compile:{id}"));
        if self.compile_fail.contains(&id) {
            Err(format!("type error in test {id}"))
        } else {
            Ok(CompiledProgram {
                circuit: id,
                diagnostics: format!("print from {id}"),
            })
        }
    }

    fn optimize(&self, circuit: u64) -> Result<u64, String> {
        self.calls.borrow_mut().push(format!("optimize:{circuit}"));
        if self.optimize_fail.contains(&circuit) {
            Err("optimizer fault".to_string())
        } else {
            Ok(circuit)
        }
    }

    fn execute(&self, circuit: u64) -> ExecutionOutcome {
        self.calls.borrow_mut().push(format!("execute:{circuit}"));
        if self.execute_fail.contains(&circuit) {
            ExecutionOutcome::Unsatisfied(format!("constraint {circuit} unsatisfied"))
        } else {
            ExecutionOutcome::Satisfied
        }
    }
}

/// A sink double that records every status event in order.
struct RecordingSink {
    events: Vec<String>,
}

impl RecordingSink {
    fn new() -> RecordingSink {
        RecordingSink { events: Vec::new() }
    }
}

impl StatusSink for RecordingSink {
    fn announce_test_count(&mut self, package: &str, count: usize) {
        self.events.push(format!("announce:{package}:{count}"));
    }

    fn begin_test(&mut self, package: &str, name: &str) {
        self.events.push(format!("begin:{package}:{name}"));
    }

    fn test_passed(&mut self) {
        self.events.push("ok".to_string());
    }

    fn test_failed(&mut self, reason: &str) {
        self.events.push(format!("failed:{reason}"));
    }

    fn all_tests_passed(&mut self, package: &str) {
        self.events.push(format!("all:{package}"));
    }
}

fn options() -> CompileOptions {
    CompileOptions {
        deny_warnings: false,
    }
}

fn pkg() -> Package {
    Package {
        name: "pkg".to_string(),
    }
}

#[test]
fn zero_matching_tests_report_success() {
    let toolchain = FakeToolchain::single_package(vec![("alpha", 1), ("beta", 2)]);
    let mut sink = RecordingSink::new();
    let r = run_package_tests(&toolchain, &mut sink, &pkg(), "nomatch", false, &options());
    let report = r.expect("a package with no matching test succeeds");
    assert_eq!(report.failing, 0);
    assert_eq!(report.results.len(), 0);
    assert_eq!(
        sink.events,
        vec!["announce:pkg:0".to_string(), "all:pkg".to_string()]
    );
}

#[test]
fn zero_declared_tests_report_success() {
    let toolchain = FakeToolchain::single_package(vec![]);
    let mut sink = RecordingSink::new();
    let r = run_package_tests(&toolchain, &mut sink, &pkg(), "", false, &options());
    let report = r.expect("a package with no test succeeds");
    assert_eq!(report.failing, 0);
    assert_eq!(
        sink.events,
        vec!["announce:pkg:0".to_string(), "all:pkg".to_string()]
    );
}

#[test]
fn satisfiable_circuit_passes_regardless_of_show_output() {
    for show_output in [false, true] {
        let toolchain = FakeToolchain::single_package(vec![("trivial", 7)]);
        let mut sink = RecordingSink::new();
        let report = run_package_tests(&toolchain, &mut sink, &pkg(), "", show_output, &options())
            .expect("a satisfiable circuit passes");
        assert_eq!(report.results.len(), 1);
        assert_eq!(report.results[0].status, TestStatus::Passed);
        assert_eq!(report.results[0].name, "trivial");
        assert_eq!(report.failing, 0);
        assert_eq!(
            report.results[0].output,
            if show_output {
                Some("print from 7".to_string())
            } else {
                None
            }
        );
    }
}

#[test]
fn false_constraint_fails_execution_and_counts_once() {
    let mut toolchain = FakeToolchain::single_package(vec![("good", 1), ("contradiction", 2)]);
    toolchain.execute_fail = vec![2];
    let mut sink = RecordingSink::new();
    let r = run_package_tests(&toolchain, &mut sink, &pkg(), "", false, &options());
    match r {
        Err(RunError::TestsFailed { report, message }) => {
            assert_eq!(report.failing, 1);
            assert_eq!(report.results.len(), 2);
            assert_eq!(report.results[0].status, TestStatus::Passed);
            assert_eq!(report.results[1].status, TestStatus::ExecutionFailed);
            assert_eq!(message, "[pkg] 1 test failed");
        }
        _ => panic!("a failing test must yield TestsFailed"),
    }
    assert!(sink
        .events
        .contains(&"failed:constraint 2 unsatisfied".to_string()));
}

#[test]
fn compile_error_classifies_without_running_backend() {
    let mut toolchain = FakeToolchain::single_package(vec![("bad_types", 4)]);
    toolchain.compile_fail = vec![4];
    let mut sink = RecordingSink::new();
    let r = run_package_tests(&toolchain, &mut sink, &pkg(), "", false, &options());
    match r {
        Err(RunError::TestsFailed { report, .. }) => {
            assert_eq!(report.results[0].status, TestStatus::CompileFailed);
            assert_eq!(report.failing, 1);
        }
        _ => panic!("a compile failure is a failing test"),
    }
    let log = toolchain.log();
    assert!(log.contains(&"compile:4".to_string()));
    assert!(!log.iter().any(|c| c.starts_with("optimize")));
    assert!(!log.iter().any(|c| c.starts_with("execute")));
}

#[test]
fn filter_is_pure_substring_match() {
    let toolchain =
        FakeToolchain::single_package(vec![("test_add", 1), ("test_sub", 2), ("other", 3)]);
    let mut sink = RecordingSink::new();
    let report = run_package_tests(&toolchain, &mut sink, &pkg(), "test_", false, &options())
        .expect("all matching tests pass");
    let names: Vec<&str> = report.results.iter().map(|r| r.name.as_str()).collect();
    assert_eq!(names, vec!["test_add", "test_sub"]);
    let log = toolchain.log();
    assert!(log.contains(&"execute:1".to_string()));
    assert!(log.contains(&"execute:2".to_string()));
    assert!(!log.contains(&"execute:3".to_string()));
}

#[test]
fn aggregation_counts_and_pluralizes() {
    let mut toolchain = FakeToolchain::single_package(vec![
        ("a", 1),
        ("b", 2),
        ("c", 3),
        ("d", 4),
        ("e", 5),
    ]);
    toolchain.execute_fail = vec![2, 4];
    let mut sink = RecordingSink::new();
    match run_package_tests(&toolchain, &mut sink, &pkg(), "", false, &options()) {
        Err(RunError::TestsFailed { report, message }) => {
            assert_eq!(report.failing, 2);
            assert_eq!(report.results.len(), 5);
            assert_eq!(message, "[pkg] 2 tests failed");
        }
        _ => panic!("two failing tests must yield TestsFailed"),
    }
}

#[test]
fn driver_stops_at_first_failing_package() {
    let unit_ok = Some(vec![("t".to_string(), 1)]);
    let unit_bad = Some(vec![("t".to_string(), 2)]);
    let toolchain = FakeToolchain {
        packages: vec![
            ("a".to_string(), unit_ok.clone()),
            ("b".to_string(), unit_bad),
            ("c".to_string(), unit_ok),
        ],
        compile_fail: Vec::new(),
        optimize_fail: Vec::new(),
        execute_fail: vec![2],
        calls: RefCell::new(Vec::new()),
    };
    let mut sink = RecordingSink::new();
    let workspace = vec![
        Package {
            name: "a".to_string(),
        },
        Package {
            name: "b".to_string(),
        },
        Package {
            name: "c".to_string(),
        },
    ];
    let r = run(&toolchain, &mut sink, &workspace, "", false, &options());
    match r {
        Err(RunError::TestsFailed { report, message }) => {
            assert_eq!(report.package, "b");
            assert_eq!(message, "[b] 1 test failed");
        }
        _ => panic!("the failing package's error propagates"),
    }
    let log = toolchain.log();
    assert!(log.contains(&"load:a".to_string()));
    assert!(log.contains(&"load:b".to_string()));
    assert!(!log.contains(&"load:c".to_string()));
}

#[test]
fn same_inputs_same_classification() {
    let mut toolchain = FakeToolchain::single_package(vec![("flaky_free", 9)]);
    toolchain.execute_fail = vec![9];
    let mut first_sink = RecordingSink::new();
    let mut second_sink = RecordingSink::new();
    let test = TestFunction {
        name: "flaky_free".to_string(),
        id: 9,
    };
    let first = run_test(&toolchain, &mut first_sink, &pkg(), &test, false, &options())
        .expect("an unsatisfied constraint is a classification, not a fault");
    let second = run_test(&toolchain, &mut second_sink, &pkg(), &test, false, &options())
        .expect("an unsatisfied constraint is a classification, not a fault");
    assert_eq!(first.status, second.status);
    assert_eq!(first.status, TestStatus::ExecutionFailed);
}

#[test]
fn optimizer_fault_aborts_package() {
    let mut toolchain = FakeToolchain::single_package(vec![("first", 1), ("cursed", 2)]);
    toolchain.optimize_fail = vec![2];
    let mut sink = RecordingSink::new();
    match run_package_tests(&toolchain, &mut sink, &pkg(), "", false, &options()) {
        Err(RunError::ToolingFailure { package, test }) => {
            assert_eq!(package, "pkg");
            assert_eq!(test, "cursed");
        }
        _ => panic!("an optimizer fault is fatal to the package"),
    }
    let log = toolchain.log();
    assert!(log.contains(&"execute:1".to_string()));
    assert!(!log.contains(&"execute:2".to_string()));
}

#[test]
fn static_check_failure_runs_no_test() {
    let toolchain = FakeToolchain {
        packages: vec![("pkg".to_string(), None)],
        compile_fail: Vec::new(),
        optimize_fail: Vec::new(),
        execute_fail: Vec::new(),
        calls: RefCell::new(Vec::new()),
    };
    let mut sink = RecordingSink::new();
    match run_package_tests(&toolchain, &mut sink, &pkg(), "", false, &options()) {
        Err(RunError::StaticCheckFailed { package }) => assert_eq!(package, "pkg"),
        _ => panic!("a failed static check aborts the package"),
    }
    assert!(!toolchain.log().iter().any(|c| c.starts_with("compile")));
    assert_eq!(sink.events.len(), 0);
}

#[test]
fn status_lines_follow_discovery_order() {
    let mut toolchain = FakeToolchain::single_package(vec![("one", 1), ("two", 2), ("three", 3)]);
    toolchain.execute_fail = vec![2];
    let mut sink = RecordingSink::new();
    let _ = run_package_tests(&toolchain, &mut sink, &pkg(), "", false, &options());
    assert_eq!(
        sink.events,
        vec![
            "announce:pkg:3".to_string(),
            "begin:pkg:one".to_string(),
            "ok".to_string(),
            "begin:pkg:two".to_string(),
            "failed:constraint 2 unsatisfied".to_string(),
            "begin:pkg:three".to_string(),
            "ok".to_string(),
        ]
    );
}

#[test]
fn all_passed_summary_on_full_success() {
    let toolchain = FakeToolchain::single_package(vec![("one", 1), ("two", 2)]);
    let mut sink = RecordingSink::new();
    let report = run_package_tests(&toolchain, &mut sink, &pkg(), "", false, &options())
        .expect("all tests pass");
    assert_eq!(report.failing, 0);
    assert_eq!(sink.events.last(), Some(&"all:pkg".to_string()));
}

#[test]
fn compile_failure_emits_marker_with_reason() {
    let mut toolchain = FakeToolchain::single_package(vec![("broken", 6)]);
    toolchain.compile_fail = vec![6];
    let mut sink = RecordingSink::new();
    let _ = run_package_tests(&toolchain, &mut sink, &pkg(), "", false, &options());
    assert!(sink
        .events
        .contains(&"failed:type error in test 6".to_string()));
}
