//! Simulation engine surface of an EVM transaction simulator.
//!
//! The crate holds the rules of the service: how a request is validated, which
//! upstream node a chain is forked from, how the items of a bundle advance the
//! block, how the sessions are kept, and how a rejection is rendered. The
//! interpreter and the HTTP layer live outside and exchange plain values with
//! the functions here.

pub mod bundle;
pub mod config;
pub mod entries;
pub mod errors;
pub mod evm;
pub mod sessions;
pub mod simulation;
pub mod text;
pub mod types;
pub mod uint;

pub use sessions::SharedSimulationState;
