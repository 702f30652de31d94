//! Differential fuzzing of zero-knowledge virtual machines: the cores that are
//! run on both sides, the oracle that compares the two runs, the generator of
//! structured inputs, and the decisions of the runners and of the orchestrator.

pub mod text;
pub mod ordered;
pub mod oracle;
pub mod cores;
pub mod registry;
pub mod native;
pub mod mutator;
pub mod zkvm;
pub mod artifacts;
pub mod orchestrator;
