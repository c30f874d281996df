//! Data model of the test runner: test identities, per-test results,
//! package-level reports and the error taxonomy of a run.

use vstd::prelude::*;

verus! {

/// One discovered test: the human-readable name of the test function and
/// the front end's identifier for its checked body.
#[derive(Debug)]
pub struct TestFunction {
    pub name: String,
    pub id: u64,
}

/// A compiled program unit, as far as this runner reads it: the
/// test-tagged functions it declares, in declaration order.
#[derive(Debug)]
pub struct ProgramUnit {
    pub tests: Vec<TestFunction>,
}

/// A package of the workspace, identified by its name.  The front end
/// resolves a package to a [`ProgramUnit`].
#[derive(Debug)]
pub struct Package {
    pub name: String,
}

/// Options handed through to the compile capability.
#[derive(Clone, Copy, PartialEq, Eq, Structural, Debug)]
pub struct CompileOptions {
    /// Treat front-end warnings as errors during the static check.
    pub deny_warnings: bool,
}

/// The result of compiling one test function: its circuit together with
/// the diagnostic output captured during compilation.
pub struct CompiledProgram<C> {
    pub circuit: C,
    pub diagnostics: String,
}

/// What executing a circuit against the backend established: either every
/// constraint holds under the derived witness, or some constraint does
/// not, with the backend's reason.
#[derive(Debug)]
pub enum ExecutionOutcome {
    Satisfied,
    Unsatisfied(String),
}

/// Classification of one finished test.  The three cases are mutually
/// exclusive and total: every test that is not cut short by a tooling
/// fault is classified as exactly one of them.
#[derive(Clone, Copy, PartialEq, Eq, Structural, Debug)]
pub enum TestStatus {
    /// The circuit compiled and all constraints were satisfied.
    Passed,
    /// The test function could not be translated to a circuit.
    CompileFailed,
    /// The circuit's constraints were not satisfiable.
    ExecutionFailed,
}

/// Per-test record: the test's name, its classification, and the
/// diagnostic output captured during compilation when it was requested.
#[derive(Debug)]
pub struct TestResult {
    pub name: String,
    pub status: TestStatus,
    pub output: Option<String>,
}

/// Package-level aggregate: every test result in discovery order and the
/// number of failing tests among them.
#[derive(Debug)]
pub struct PackageReport {
    pub package: String,
    pub results: Vec<TestResult>,
    pub failing: u64,
}

/// A fault of the tooling itself, raised when the backend's optimizer
/// rejects a compiled circuit.  It aborts the enclosing package run and is
/// not a normal test failure.
#[derive(Debug)]
pub struct ToolingError {
    pub test: String,
}

/// A package-level hard failure.
#[derive(Debug)]
pub enum RunError {
    /// The front end's static check of the package failed; no test ran.
    StaticCheckFailed { package: String },
    /// The backend's optimizer failed on the named test; the package run
    /// stopped there.
    ToolingFailure { package: String, test: String },
    /// The package ran to completion with at least one failing test.
    TestsFailed { report: PackageReport, message: String },
}

/// The model of one test: its name and identifier as mathematical values.
pub open spec fn test_model(t: TestFunction) -> (Seq<char>, u64) {
    (t.name@, t.id)
}

/// The model of a program unit: its declared tests, in order.
pub open spec fn unit_model(u: ProgramUnit) -> Seq<(Seq<char>, u64)> {
    u.tests@.map_values(|t: TestFunction| test_model(t))
}

/// The model of one test result: name, classification and captured output
/// as mathematical values.
pub open spec fn result_model(r: TestResult) -> (Seq<char>, TestStatus, Option<Seq<char>>) {
    (
        r.name@,
        r.status,
        match r.output {
            Some(s) => Some(s@),
            None => None,
        },
    )
}

/// How many of a sequence of results are failures.
pub open spec fn failing_count(results: Seq<TestResult>) -> int {
    results.filter(|r: TestResult| r.status != TestStatus::Passed).len() as int
}

/// Filtering a sequence extended by one element keeps the filtered
/// prefix and appends the new element exactly when it satisfies the
/// predicate.
pub proof fn lemma_filter_push<A>(s: Seq<A>, pred: spec_fn(A) -> bool, x: A)
    ensures
        s.push(x).filter(pred) == if pred(x) {
            s.filter(pred).push(x)
        } else {
            s.filter(pred)
        },
{
    reveal(Seq::filter);
    assert(s.push(x).drop_last() =~= s);
    assert(s.push(x).last() == x);
}

/// Recording one more result raises the failing count by exactly one
/// when that result is a failure, and leaves it unchanged when it is a
/// pass.
pub proof fn lemma_failing_count_push(results: Seq<TestResult>, r: TestResult)
    ensures
        failing_count(results.push(r)) == failing_count(results) + (if r.status
            != TestStatus::Passed {
            1int
        } else {
            0int
        }),
{
    lemma_filter_push(results, |t: TestResult| t.status != TestStatus::Passed, r);
}

/// The failing count is zero exactly when every recorded result passed.
pub proof fn lemma_failing_count_zero(results: Seq<TestResult>)
    ensures
        (failing_count(results) == 0) <==> (forall|i: int|
            0 <= i < results.len() ==> results[i].status == TestStatus::Passed),
    decreases results.len(),
{
    reveal(Seq::filter);
    if results.len() > 0 {
        let prefix = results.drop_last();
        lemma_failing_count_zero(prefix);
        lemma_filter_push(prefix, |t: TestResult| t.status != TestStatus::Passed, results.last());
        assert(prefix.push(results.last()) =~= results);
        assert forall|i: int| 0 <= i < prefix.len() implies prefix[i] == results[i] by {}
    }
}

} // verus!
