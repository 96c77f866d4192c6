//! The ways a call can fail, by the stage that found the failure.

use vstd::prelude::*;

verus! {

/// Why a request was turned away before any collaborator was asked.
#[derive(Clone, Copy, Debug, PartialEq, Eq)]
pub enum ValidationError {
    /// The fee record carries less than the fee.
    InsufficientFee,
    /// The record to split carries less than the amount to split off.
    InsufficientBalance,
    /// A record that had to be read could not be.
    RecordUnreadable,
}

/// What the client lacks to make the call at all.
#[derive(Clone, Copy, Debug, PartialEq, Eq)]
pub enum ConfigurationError {
    /// No service endpoint has been set for this client.
    NotConfigured,
    /// No signing credential is available for the acting party.
    NoCredential,
}

/// Why the credential resolver gave no credential.
#[derive(Debug, PartialEq, Eq)]
pub struct CredentialError {
    pub reason: String,
}

/// Why the execution engine produced no transaction.
#[derive(Debug, PartialEq, Eq)]
pub enum EngineError {
    /// The transient execution context could not be set up.
    EngineInitFailed,
    /// The engine ran and failed; the text is its own diagnostic.
    ExecutionFailed(String),
}

/// Why the transaction was not submitted; the text is the broadcaster's own
/// diagnostic.
#[derive(Debug, PartialEq, Eq)]
pub enum BroadcastError {
    BroadcastFailed(String),
}

/// Why a join or a split gave no transaction identifier.
#[derive(Debug, PartialEq, Eq)]
pub enum CallError {
    Validation(ValidationError),
    Configuration(ConfigurationError),
    Engine(EngineError),
    Broadcast(BroadcastError),
}

} // verus!
