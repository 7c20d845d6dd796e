//! An invariant harness for EVM contracts run against live chain state.
pub mod abi;
pub mod artifact;
pub mod chain;
pub mod context;
pub mod driver;
pub mod host;
pub mod laws;
pub mod overlay;
pub mod recorder;
pub mod table;
pub mod types;
