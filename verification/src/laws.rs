//! Laws of the runner, stated over the capability models: how a test's
//! classification follows from the toolchain's behaviour, and when a
//! package run succeeds.

use vstd::prelude::*;
use crate::aggregator::{package_succeeds, results_match, selection};
use crate::capability::Toolchain;
use crate::executor::run_test_model;
use crate::model::{result_model, CompileOptions, TestResult, TestStatus};

verus! {

/// A package whose static check passes and whose filter selects no test
/// succeeds: an empty selection is a zero-count summary, not a failure.
pub proof fn lemma_empty_selection_succeeds<C, T: Toolchain<C>>(
    toolchain: T,
    package: Seq<char>,
    filter: Seq<char>,
    show_output: bool,
    options: CompileOptions,
)
    requires
        match selection(toolchain, package, filter, options.deny_warnings) {
            Some(sel) => sel.len() == 0,
            None => false,
        },
    ensures
        package_succeeds(toolchain, package, filter, show_output, options),
{
}

/// A test whose circuit compiles, optimizes, and executes with every
/// constraint satisfied is classified `Passed` — whatever `show_output`
/// is, since the lemma holds for either value of it.
pub proof fn lemma_satisfiable_circuit_passes<C, T: Toolchain<C>>(
    toolchain: T,
    package: Seq<char>,
    name: Seq<char>,
    id: u64,
    show_output: bool,
    options: CompileOptions,
)
    requires
        match toolchain.compile_spec(package, id, show_output, options) {
            Ok((circuit, diagnostics)) => match toolchain.optimize_spec(circuit) {
                Some(optimized) => toolchain.execute_spec(optimized) is None,
                None => false,
            },
            Err(_) => false,
        },
    ensures
        match run_test_model(toolchain, package, name, id, show_output, options) {
            Ok(m) => m.1 == TestStatus::Passed,
            Err(_) => false,
        },
{
}

/// A test whose optimized circuit leaves some constraint unsatisfied is
/// classified `ExecutionFailed`.  Together with
/// [`crate::model::lemma_failing_count_push`], recording it raises a
/// package's failing count by exactly one.
pub proof fn lemma_unsatisfied_circuit_fails<C, T: Toolchain<C>>(
    toolchain: T,
    package: Seq<char>,
    name: Seq<char>,
    id: u64,
    show_output: bool,
    options: CompileOptions,
)
    requires
        match toolchain.compile_spec(package, id, show_output, options) {
            Ok((circuit, diagnostics)) => match toolchain.optimize_spec(circuit) {
                Some(optimized) => toolchain.execute_spec(optimized) is Some,
                None => false,
            },
            Err(_) => false,
        },
    ensures
        match run_test_model(toolchain, package, name, id, show_output, options) {
            Ok(m) => m.1 == TestStatus::ExecutionFailed,
            Err(_) => false,
        },
{
}

/// A test that fails to compile is classified `CompileFailed`, and the
/// classification owes nothing to optimization or execution: the model
/// is already determined at the compile step.
pub proof fn lemma_compile_failure_classifies<C, T: Toolchain<C>>(
    toolchain: T,
    package: Seq<char>,
    name: Seq<char>,
    id: u64,
    show_output: bool,
    options: CompileOptions,
)
    requires
        toolchain.compile_spec(package, id, show_output, options) is Err,
    ensures
        run_test_model(toolchain, package, name, id, show_output, options) == Ok::<_, ()>(
            (name, TestStatus::CompileFailed, None::<Seq<char>>),
        ),
{
}

/// A faithful record keeps names and order: the results of a package run
/// carry the selected tests' names, one each, in discovery order.
pub proof fn lemma_report_names_follow_selection<C, T: Toolchain<C>>(
    toolchain: T,
    package: Seq<char>,
    sel: Seq<(Seq<char>, u64)>,
    results: Seq<TestResult>,
    show_output: bool,
    options: CompileOptions,
)
    requires
        results_match(toolchain, package, sel, results, show_output, options),
    ensures
        results.len() == sel.len(),
        forall|i: int| 0 <= i < sel.len() ==> (#[trigger] results[i]).name@ == sel[i].0,
{
    assert forall|i: int| 0 <= i < sel.len() implies (#[trigger] results[i]).name@
        == sel[i].0 by {
        assert(run_test_model(toolchain, package, sel[i].0, sel[i].1, show_output, options)
            == Ok::<_, ()>(result_model(results[i])));
    }
}

/// The `show_output` flag only chooses whether captured diagnostics are
/// surfaced: whenever the front end's answer for a test does not depend
/// on the flag, neither the test's name nor its classification does.
pub proof fn lemma_show_output_only_affects_output<C, T: Toolchain<C>>(
    toolchain: T,
    package: Seq<char>,
    name: Seq<char>,
    id: u64,
    first: bool,
    second: bool,
    options: CompileOptions,
)
    requires
        toolchain.compile_spec(package, id, first, options) == toolchain.compile_spec(
            package,
            id,
            second,
            options,
        ),
    ensures
        match (
            run_test_model(toolchain, package, name, id, first, options),
            run_test_model(toolchain, package, name, id, second, options),
        ) {
            (Ok(a), Ok(b)) => a.0 == b.0 && a.1 == b.1,
            (Err(_), Err(_)) => true,
            _ => false,
        },
{
}

/// Running the same test twice against the same toolchain with the same
/// inputs yields the same classification and the same recorded result:
/// constraint evaluation is deterministic.
pub proof fn lemma_same_inputs_same_classification<C, T: Toolchain<C>>(
    toolchain: T,
    package: Seq<char>,
    name: Seq<char>,
    id: u64,
    show_output: bool,
    options: CompileOptions,
    first: TestResult,
    second: TestResult,
)
    requires
        run_test_model(toolchain, package, name, id, show_output, options) == Ok::<_, ()>(
            result_model(first),
        ),
        run_test_model(toolchain, package, name, id, show_output, options) == Ok::<_, ()>(
            result_model(second),
        ),
    ensures
        first.status == second.status,
        result_model(first) == result_model(second),
{
}

} // verus!
