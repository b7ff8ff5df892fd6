//! Grinding of keyless deployment signatures: scoring of candidate contract
//! addresses against a target pattern, the search over signature scalars,
//! and the configuration and report of a run.

pub mod address;
pub mod opt;
pub mod report;
pub mod scalar;
pub mod sig;
pub mod tx;
pub mod util;
