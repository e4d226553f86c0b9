//! Verified state-transition engine of a privacy-preserving trading ledger:
//! proof gating, nullifier and public-blinder registries, root-history checks
//! and the wallet rotation and settlement flows that drive the commitment tree.

pub mod cli;
pub mod darkpool_core;
pub mod encoding;
pub mod error;
pub mod flows;
pub mod laws;
pub mod registry;
pub mod scalar;
pub mod statements;
pub mod transcript;
