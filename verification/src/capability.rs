//! Capability traits for the two collaborators of the runner: the
//! compilation front end and the constraint-solving backend, merged into
//! one toolchain interface, and the status sink that renders per-test
//! progress.
//!
//! The toolchain is modelled as a pure capability: each executable method
//! is tied to a spec-level member, so within one run the same inputs give
//! the same answer (constraint evaluation is deterministic).  Nothing else
//! is promised of the collaborators: what they return for a given package
//! or circuit is entirely their own.

use vstd::prelude::*;
use crate::model::{unit_model, CompileOptions, CompiledProgram, ExecutionOutcome, Package,
    ProgramUnit};

verus! {

/// The toolchain the runner drives, generic over the circuit
/// representation `C`, which this crate never looks inside.
///
/// `load_spec` stands for resolving a package to a checked program unit
/// (with warnings denied when asked); `None` is a failed static check.
/// `compile_spec` stands for compiling one test function in isolation:
/// on success a circuit and the diagnostic output captured during
/// compilation, on failure the front end's error text.  `optimize_spec`
/// stands for backend-specific circuit optimization; `None` is an
/// optimizer fault.  `execute_spec` stands for evaluating the circuit's
/// constraints with an empty initial witness: `None` when every
/// constraint is satisfied, otherwise the backend's reason.
pub trait Toolchain<C>: Sized {
    spec fn load_spec(&self, package: Seq<char>, deny_warnings: bool) -> Option<
        Seq<(Seq<char>, u64)>,
    >;

    spec fn compile_spec(
        &self,
        package: Seq<char>,
        id: u64,
        show_output: bool,
        options: CompileOptions,
    ) -> Result<(C, Seq<char>), Seq<char>>;

    spec fn optimize_spec(&self, circuit: C) -> Option<C>;

    spec fn execute_spec(&self, circuit: C) -> Option<Seq<char>>;

    /// Resolve a package to its checked program unit, or fail its static
    /// check.
    fn load_package(&self, package: &Package, deny_warnings: bool) -> (r: Option<ProgramUnit>)
        ensures
            match r {
                Some(unit) => self.load_spec(package.name@, deny_warnings) == Some(
                    unit_model(unit),
                ),
                None => self.load_spec(package.name@, deny_warnings) is None,
            },
    ;

    /// Compile one test function to a circuit.
    fn compile(&self, package: &Package, id: u64, show_output: bool, options: &CompileOptions) -> (r:
        Result<CompiledProgram<C>, String>)
        ensures
            match r {
                Ok(program) => self.compile_spec(package.name@, id, show_output, *options) == Ok::<
                    _,
                    Seq<char>,
                >((program.circuit, program.diagnostics@)),
                Err(error) => self.compile_spec(package.name@, id, show_output, *options) == Err::<
                    (C, Seq<char>),
                    _,
                >(error@),
            },
    ;

    /// Run backend-specific optimization over a compiled circuit.  An
    /// error is a fault of the tooling, not of the program under test.
    fn optimize(&self, circuit: C) -> (r: Result<C, String>)
        ensures
            match r {
                Ok(optimized) => self.optimize_spec(circuit) == Some(optimized),
                Err(_) => self.optimize_spec(circuit) is None,
            },
    ;

    /// Evaluate the circuit's constraints with an empty initial witness.
    fn execute(&self, circuit: C) -> (r: ExecutionOutcome)
        ensures
            match r {
                ExecutionOutcome::Satisfied => self.execute_spec(circuit) is None,
                ExecutionOutcome::Unsatisfied(reason) => self.execute_spec(circuit) == Some(
                    reason@,
                ),
            },
    ;
}

/// Where per-test progress is rendered.  Every method is a pure side
/// channel: nothing the runner proves depends on what a sink does, and a
/// sink must restore any formatting state it changes before returning.
pub trait StatusSink {
    /// A package is about to run the given number of discovered tests.
    fn announce_test_count(&mut self, package: &str, count: usize);

    /// A named test is about to run; render and flush immediately, so a
    /// hung test is visibly attributed.
    fn begin_test(&mut self, package: &str, name: &str);

    /// The test that last began passed.
    fn test_passed(&mut self);

    /// The test that last began failed, with the collaborator's reason.
    fn test_failed(&mut self, reason: &str);

    /// Every test of the package passed.
    fn all_tests_passed(&mut self, package: &str);
}

} // verus!
