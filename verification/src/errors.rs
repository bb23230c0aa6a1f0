//! Error taxonomy of the faucet core.

use vstd::prelude::*;

verus! {

/// Errors surfaced by provisioning and minting.
#[derive(Debug, Clone, PartialEq, Eq)]
pub enum FaucetError {
    /// Invalid token symbol or out-of-range supply at provisioning.
    AccountCreationError(String),
    /// Catch-all engine, network or serialization failure; carries the
    /// underlying message.
    InternalServerError(String),
}

/// Errors surfaced by the local account store.
#[derive(Debug, Clone, PartialEq, Eq)]
pub enum DataStoreError {
    /// The requested account id does not match the held account; carries the
    /// requested id.
    AccountNotFound(u64),
}

/// Errors surfaced by the authorization callback.
#[derive(Debug, Clone, PartialEq, Eq)]
pub enum AuthenticationError {
    /// The secret key is malformed.
    MalformedKey(String),
}

} // verus!
