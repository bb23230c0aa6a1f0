//! Core of a token faucet's minting pipeline.
//!
//! The crate provisions a single token-issuing account, answers the execution
//! engine's requests for transaction inputs, instantiates the distribution
//! script for each mint request, lays out lattice-signature advice in the
//! exact order the verification circuit expects, and applies account deltas
//! after successful submissions.

pub mod account;
pub mod errors;
pub mod felt;
pub mod mint;
pub mod provision;
pub mod script;
pub mod signer;
pub mod store;
