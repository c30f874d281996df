//! The single-test executor: compile one test function to a circuit,
//! optimize it, execute it against the backend with an empty witness, and
//! classify the outcome.

use vstd::prelude::*;
use crate::capability::{StatusSink, Toolchain};
use crate::model::{result_model, CompileOptions, CompiledProgram, ExecutionOutcome, Package,
    TestFunction, TestResult, TestStatus, ToolingError};

verus! {

/// What running one test must come to, as a function of the toolchain's
/// behaviour alone.  `Err(())` is a fault of the tooling (the optimizer
/// rejected a compiled circuit); otherwise the test's name, its
/// classification, and the diagnostics surfaced when `show_output` asked
/// for them.
///
/// A compilation failure classifies the test at once: optimization and
/// execution play no part in the result.  Optimization is mandatory
/// before execution, because only the optimized circuit carries every
/// constraint-generating effect of the program.
pub open spec fn run_test_model<C, T: Toolchain<C>>(
    toolchain: T,
    package: Seq<char>,
    name: Seq<char>,
    id: u64,
    show_output: bool,
    options: CompileOptions,
) -> Result<(Seq<char>, TestStatus, Option<Seq<char>>), ()> {
    match toolchain.compile_spec(package, id, show_output, options) {
        Err(_) => Ok((name, TestStatus::CompileFailed, None)),
        Ok((circuit, diagnostics)) => match toolchain.optimize_spec(circuit) {
            None => Err(()),
            Some(optimized) => {
                let status = if toolchain.execute_spec(optimized) is None {
                    TestStatus::Passed
                } else {
                    TestStatus::ExecutionFailed
                };
                Ok(
                    (
                        name,
                        status,
                        if show_output {
                            Some(diagnostics)
                        } else {
                            None
                        },
                    ),
                )
            },
        },
    }
}

/// Run one test: compile, optimize, execute, classify.  The result is
/// exactly what [`run_test_model`] says the toolchain's behaviour comes
/// to; an `Err` names the test on which the optimizer faulted.  On a
/// compilation or execution failure a failure marker with the
/// collaborator's reason goes to the sink before returning, and the test
/// still yields a classification rather than an error.
pub fn run_test<C, T: Toolchain<C>, S: StatusSink>(
    toolchain: &T,
    sink: &mut S,
    package: &Package,
    test: &TestFunction,
    show_output: bool,
    options: &CompileOptions,
) -> (r: Result<TestResult, ToolingError>)
    ensures
        match r {
            Ok(result) => run_test_model(
                *toolchain,
                package.name@,
                test.name@,
                test.id,
                show_output,
                *options,
            ) == Ok::<_, ()>(result_model(result)),
            Err(fault) => run_test_model(
                *toolchain,
                package.name@,
                test.name@,
                test.id,
                show_output,
                *options,
            ) is Err && fault.test@ == test.name@,
        },
{
    match toolchain.compile(package, test.id, show_output, options) {
        Err(error) => {
            sink.test_failed(error.as_str());
            Ok(
                TestResult {
                    name: test.name.clone(),
                    status: TestStatus::CompileFailed,
                    output: None,
                },
            )
        },
        Ok(program) => {
            let CompiledProgram { circuit, diagnostics } = program;
            let output = if show_output {
                Some(diagnostics)
            } else {
                None
            };
            match toolchain.optimize(circuit) {
                Err(_) => Err(ToolingError { test: test.name.clone() }),
                Ok(optimized) => match toolchain.execute(optimized) {
                    ExecutionOutcome::Satisfied => Ok(
                        TestResult { name: test.name.clone(), status: TestStatus::Passed, output },
                    ),
                    ExecutionOutcome::Unsatisfied(reason) => {
                        sink.test_failed(reason.as_str());
                        Ok(
                            TestResult {
                                name: test.name.clone(),
                                status: TestStatus::ExecutionFailed,
                                output,
                            },
                        )
                    },
                },
            }
        },
    }
}

} // verus!
