//! The multi-package driver: run the aggregator over each package of the
//! resolved workspace, in order, sequentially, stopping at the first
//! package whose run fails.

use vstd::prelude::*;
use crate::aggregator::{error_matches, package_succeeds, run_package_tests};
use crate::capability::{StatusSink, Toolchain};
use crate::model::{CompileOptions, Package, RunError};

verus! {

/// Run the tests of every package of the workspace, in workspace order.
///
/// The run succeeds exactly when every package succeeds.  The first
/// package whose run fails stops the whole run, and its error is the
/// result: the failing package is preceded only by packages that
/// succeeded, and no later package is run.
pub fn run<C, T: Toolchain<C>, S: StatusSink>(
    toolchain: &T,
    sink: &mut S,
    workspace: &Vec<Package>,
    filter: &str,
    show_output: bool,
    options: &CompileOptions,
) -> (r: Result<(), RunError>)
    ensures
        (r is Ok) == (forall|i: int|
            0 <= i < workspace@.len() ==> package_succeeds(
                *toolchain,
                (#[trigger] workspace@[i]).name@,
                filter@,
                show_output,
                *options,
            )),
        match r {
            Ok(_) => true,
            Err(error) => exists|i: int|
                0 <= i < workspace@.len() && !package_succeeds(
                    *toolchain,
                    (#[trigger] workspace@[i]).name@,
                    filter@,
                    show_output,
                    *options,
                ) && error_matches(
                    *toolchain,
                    workspace@[i].name@,
                    filter@,
                    show_output,
                    *options,
                    error,
                ) && (forall|j: int|
                    0 <= j < i ==> package_succeeds(
                        *toolchain,
                        (#[trigger] workspace@[j]).name@,
                        filter@,
                        show_output,
                        *options,
                    )),
        },
{
    let n: usize = workspace.len();
    let mut idx: usize = 0;
    while idx < n
        invariant
            n == workspace@.len(),
            idx <= n,
            forall|j: int|
                0 <= j < idx ==> package_succeeds(
                    *toolchain,
                    (#[trigger] workspace@[j]).name@,
                    filter@,
                    show_output,
                    *options,
                ),
        decreases n - idx,
    {
        match run_package_tests(toolchain, sink, &workspace[idx], filter, show_output, options) {
            Err(error) => {
                return Err(error);
            },
            Ok(_) => {},
        }
        idx = idx + 1;
    }
    Ok(())
}

} // verus!
