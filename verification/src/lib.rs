//! A test-execution pipeline for a language whose programs compile to
//! arithmetic constraint circuits.  Test functions are discovered inside a
//! compiled program unit, compiled one by one to a circuit, optimized,
//! executed against a constraint-solving backend, and classified as passed
//! or failed; results are aggregated per package and across a workspace.
//!
//! The compilation front end and the constraint-solving backend are
//! collaborators, reached through the capability traits in [`capability`];
//! this crate owns discovery, classification, aggregation and reporting.

pub mod aggregator;
pub mod capability;
pub mod discovery;
pub mod driver;
pub mod executor;
pub mod laws;
pub mod model;
pub mod text;
