//! Strata-based multi-signature wallet logic: owners are grouped into strata,
//! each stratum has its own approval threshold, and a transaction runs only once
//! every active stratum has approved it.

pub mod errors;
pub mod key;
pub mod state;
pub mod program;
pub mod instructions;
pub mod laws;
