//! The test-run aggregator for one package: resolve and statically check
//! the package, discover its tests, run each in discovery order, stream
//! status to the sink, and tally failures into a package report.

use vstd::prelude::*;
use crate::capability::{StatusSink, Toolchain};
use crate::discovery::{find_tests, selected_tests};
use crate::executor::{run_test, run_test_model};
use crate::model::{failing_count, lemma_failing_count_push, lemma_failing_count_zero,
    result_model, test_model, unit_model, CompileOptions, Package, PackageReport, RunError,
    TestFunction, TestResult, TestStatus};
use crate::text::{failure_message, failure_message_model};

verus! {

/// The tests one package run will execute: the package's checked unit
/// filtered by test name, or `None` when the static check fails.
pub open spec fn selection<C, T: Toolchain<C>>(
    toolchain: T,
    package: Seq<char>,
    filter: Seq<char>,
    deny_warnings: bool,
) -> Option<Seq<(Seq<char>, u64)>> {
    match toolchain.load_spec(package, deny_warnings) {
        None => None,
        Some(tests) => Some(selected_tests(tests, filter)),
    }
}

/// One selected test runs to completion and is classified `Passed`.
pub open spec fn test_passes<C, T: Toolchain<C>>(
    toolchain: T,
    package: Seq<char>,
    test: (Seq<char>, u64),
    show_output: bool,
    options: CompileOptions,
) -> bool {
    match run_test_model(toolchain, package, test.0, test.1, show_output, options) {
        Ok(m) => m.1 == TestStatus::Passed,
        Err(_) => false,
    }
}

/// The package's static check succeeds and every selected test passes.
/// A package with no selected test succeeds.
pub open spec fn package_succeeds<C, T: Toolchain<C>>(
    toolchain: T,
    package: Seq<char>,
    filter: Seq<char>,
    show_output: bool,
    options: CompileOptions,
) -> bool {
    match selection(toolchain, package, filter, options.deny_warnings) {
        None => false,
        Some(sel) => forall|i: int|
            0 <= i < sel.len() ==> test_passes(
                toolchain,
                package,
                #[trigger] sel[i],
                show_output,
                options,
            ),
    }
}

/// Each selected test, in order, ran to exactly the recorded result.
pub open spec fn results_match<C, T: Toolchain<C>>(
    toolchain: T,
    package: Seq<char>,
    sel: Seq<(Seq<char>, u64)>,
    results: Seq<TestResult>,
    show_output: bool,
    options: CompileOptions,
) -> bool {
    &&& results.len() == sel.len()
    &&& forall|i: int|
        0 <= i < sel.len() ==> run_test_model(
            toolchain,
            package,
            (#[trigger] sel[i]).0,
            sel[i].1,
            show_output,
            options,
        ) == Ok::<_, ()>(result_model(results[i]))
}

/// The report is the faithful record of the package run: its name, one
/// result per selected test in discovery order, and the failing tally.
pub open spec fn report_matches<C, T: Toolchain<C>>(
    toolchain: T,
    package: Seq<char>,
    filter: Seq<char>,
    show_output: bool,
    options: CompileOptions,
    report: PackageReport,
) -> bool {
    &&& report.package@ == package
    &&& match selection(toolchain, package, filter, options.deny_warnings) {
        None => false,
        Some(sel) => results_match(toolchain, package, sel, report.results@, show_output, options),
    }
    &&& report.failing as int == failing_count(report.results@)
}

/// The optimizer faulted on the named test, and it was the first fault
/// of the run: every selected test before it ran to a classification.
pub open spec fn tooling_fault_first<C, T: Toolchain<C>>(
    toolchain: T,
    package: Seq<char>,
    filter: Seq<char>,
    show_output: bool,
    options: CompileOptions,
    test: Seq<char>,
) -> bool {
    match selection(toolchain, package, filter, options.deny_warnings) {
        None => false,
        Some(sel) => exists|i: int|
            0 <= i < sel.len() && (#[trigger] sel[i]).0 == test && run_test_model(
                toolchain,
                package,
                sel[i].0,
                sel[i].1,
                show_output,
                options,
            ) is Err && (forall|j: int|
                0 <= j < i ==> run_test_model(
                    toolchain,
                    package,
                    (#[trigger] sel[j]).0,
                    sel[j].1,
                    show_output,
                    options,
                ) is Ok),
    }
}

/// The error a package run came to is the faithful account of that run:
/// a static-check failure before any test ran, the first optimizer
/// fault, or the full report of a run with failing tests together with
/// its pluralized summary message.
pub open spec fn error_matches<C, T: Toolchain<C>>(
    toolchain: T,
    package: Seq<char>,
    filter: Seq<char>,
    show_output: bool,
    options: CompileOptions,
    error: RunError,
) -> bool {
    match error {
        RunError::StaticCheckFailed { package: failed } => failed@ == package && toolchain.load_spec(
            package,
            options.deny_warnings,
        ) is None,
        RunError::ToolingFailure { package: failed, test } => failed@ == package
            && tooling_fault_first(toolchain, package, filter, show_output, options, test@),
        RunError::TestsFailed { report, message } => report_matches(
            toolchain,
            package,
            filter,
            show_output,
            options,
            report,
        ) && report.failing >= 1 && message@ == failure_message_model(
            package,
            report.failing as nat,
        ),
    }
}

/// Run every selected test of one package, in discovery order, strictly
/// sequentially.
///
/// The run succeeds exactly when the static check passes and every
/// selected test passes; an empty selection succeeds with a zero-count
/// summary.  On success the report records one result per test and a
/// failing count of zero.  When tests fail, the error carries the same
/// faithful report together with the pluralized summary message.  A
/// static-check failure aborts before any test runs, and an optimizer
/// fault aborts at the first test it strikes; neither is a test failure.
pub fn run_package_tests<C, T: Toolchain<C>, S: StatusSink>(
    toolchain: &T,
    sink: &mut S,
    package: &Package,
    filter: &str,
    show_output: bool,
    options: &CompileOptions,
) -> (r: Result<PackageReport, RunError>)
    ensures
        (r is Ok) == package_succeeds(*toolchain, package.name@, filter@, show_output, *options),
        match r {
            Ok(report) => report_matches(
                *toolchain,
                package.name@,
                filter@,
                show_output,
                *options,
                report,
            ) && report.failing == 0,
            Err(error) => error_matches(
                *toolchain,
                package.name@,
                filter@,
                show_output,
                *options,
                error,
            ),
        },
{
    let unit = match toolchain.load_package(package, options.deny_warnings) {
        None => {
            return Err(RunError::StaticCheckFailed { package: package.name.clone() });
        },
        Some(u) => u,
    };
    let tests = find_tests(&unit, filter);
    let ghost sel = selected_tests(unit_model(unit), filter@);
    sink.announce_test_count(package.name.as_str(), tests.len());
    let n: usize = tests.len();
    let mut results: Vec<TestResult> = Vec::new();
    let mut failing: u64 = 0;
    let mut idx: usize = 0;
    while idx < n
        invariant
            n == tests@.len(),
            idx <= n,
            tests@.map_values(|t: TestFunction| test_model(t)) == sel,
            selection(*toolchain, package.name@, filter@, options.deny_warnings) == Some(sel),
            results@.len() == idx as int,
            forall|i: int|
                0 <= i < idx ==> run_test_model(
                    *toolchain,
                    package.name@,
                    (#[trigger] sel[i]).0,
                    sel[i].1,
                    show_output,
                    *options,
                ) == Ok::<_, ()>(result_model(results@[i])),
            failing as int == failing_count(results@),
            failing as int <= results@.len(),
        decreases n - idx,
    {
        let test = &tests[idx];
        sink.begin_test(package.name.as_str(), test.name.as_str());
        proof {
            assert(test_model(tests@[idx as int]) == sel[idx as int]);
        }
        match run_test(toolchain, sink, package, test, show_output, options) {
            Err(fault) => {
                proof {
                    assert(!test_passes(
                        *toolchain,
                        package.name@,
                        sel[idx as int],
                        show_output,
                        *options,
                    ));
                    assert(tooling_fault_first(
                        *toolchain,
                        package.name@,
                        filter@,
                        show_output,
                        *options,
                        fault.test@,
                    ));
                }
                return Err(
                    RunError::ToolingFailure { package: package.name.clone(), test: fault.test },
                );
            },
            Ok(result) => {
                if result.status == TestStatus::Passed {
                    sink.test_passed();
                } else {
                    failing = failing + 1;
                }
                proof {
                    lemma_failing_count_push(results@, result);
                }
                results.push(result);
            },
        }
        idx = idx + 1;
    }
    if failing == 0 {
        sink.all_tests_passed(package.name.as_str());
        let report = PackageReport { package: package.name.clone(), results, failing };
        proof {
            lemma_failing_count_zero(report.results@);
            assert forall|i: int| 0 <= i < sel.len() implies test_passes(
                *toolchain,
                package.name@,
                #[trigger] sel[i],
                show_output,
                *options,
            ) by {
                assert(result_model(report.results@[i]).1 == report.results@[i].status);
            }
        }
        Ok(report)
    } else {
        let message = failure_message(package.name.as_str(), failing);
        let report = PackageReport { package: package.name.clone(), results, failing };
        proof {
            lemma_failing_count_zero(report.results@);
            let witness = choose|i: int|
                0 <= i < report.results@.len() && report.results@[i].status != TestStatus::Passed;
            assert(!test_passes(*toolchain, package.name@, sel[witness], show_output, *options));
        }
        Err(RunError::TestsFailed { report, message })
    }
}

} // verus!
