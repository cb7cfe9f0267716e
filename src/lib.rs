//! A counter contract with a keyed map of marker records, written as pure
//! state transitions over a model of the contract's persistent store.
//!
//! The host's storage, the bank queries and the ownership capability are
//! driven by the surrounding application; this crate decides what every
//! entry point does with the values handed to it.
pub mod commands;
pub mod contract;
pub mod error;
pub mod external;
pub mod laws;
pub mod msg;
pub mod queries;
pub mod state;

pub use crate::error::ContractError;
