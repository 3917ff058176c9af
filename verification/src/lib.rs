//! Verified decision logic of three CosmWasm contracts on Terra: a price
//! oracle, a token shop that sells tokens for luna at the oracle's price
//! (`swap`), and a staking shop that delegates the luna it takes in and
//! later unwinds the position (`swap2`).
//!
//! Every entry point is a function from the stored state, the incoming
//! message and the answers of the chain's queriers to the new state and the
//! response; reading and writing the chain is left to the caller.

pub mod types;
pub mod error;
pub mod outside;
pub mod msgs;
pub mod oracle;
pub mod swap;
pub mod swap2;
