//! The steps of a call, each as a function of what the step before it left
//! and of what a collaborator answered.
//!
//! The credential resolver, the execution engine and the broadcaster work
//! outside this library. Nothing here asks them anything: a step says what a
//! collaborator is to be handed, and what its answer leads to.

use crate::entropy::entropy_source;
use crate::error::{BroadcastError, CallError, ConfigurationError, CredentialError, EngineError};
use crate::record::{Operation, OperationRequest, Value, ValueRecord};
use rand::rngs::ThreadRng;
use vstd::prelude::*;

verus! {

/// A handle for reading the chain's current state, made from the service
/// endpoint for one call.
#[derive(Debug, PartialEq, Eq)]
pub struct ChainStateQuery {
    pub base_url: String,
}

/// Names the party whose credential is wanted.
#[derive(Debug, PartialEq, Eq)]
pub struct Identity {
    pub name: String,
}

/// The private key of the acting party. It is held for the length of one
/// call and handed to the engine, nothing else.
#[derive(PartialEq, Eq)]
pub struct SigningCredential {
    pub key: String,
}

/// What the execution engine produced: a transaction, serialized.
#[derive(Debug, PartialEq, Eq)]
pub struct TransactionArtifact {
    pub body: String,
}

/// A request that is valid, with the state query built for it. What it still
/// lacks is the credential to sign with.
#[derive(Debug, PartialEq, Eq)]
pub struct AcceptedRequest {
    pub request: OperationRequest,
    pub query: ChainStateQuery,
}

/// What the engine is handed, but for the randomness.
#[derive(PartialEq, Eq)]
pub struct ExecutionRequest {
    pub credential: SigningCredential,
    pub operation: Operation,
    pub inputs: Vec<Value>,
    pub fee_record: Option<ValueRecord>,
    pub fee: u64,
    pub query: Option<ChainStateQuery>,
}

/// An `ExecutionRequest` with its inputs as a sequence.
pub struct ExecutionModel {
    pub credential: SigningCredential,
    pub operation: Operation,
    pub inputs: Seq<Value>,
    pub fee_record: Option<ValueRecord>,
    pub fee: u64,
    pub query: Option<ChainStateQuery>,
}

impl ExecutionModel {
    /// Whether the request has the shape of a join or of a split: two
    /// inputs, the first a record; for a join the second is a record too; for
    /// a split it is the amount, and no fee is paid. Either way a state query
    /// comes with it.
    pub open spec fn well_formed(self) -> bool {
        &&& self.inputs.len() == 2
        &&& self.inputs[0] is Record
        &&& self.query is Some
        &&& match self.operation {
            Operation::Join => self.inputs[1] is Record,
            Operation::Split => self.inputs[1] is U64 && self.fee_record is None && self.fee == 0,
        }
    }
}

impl View for ExecutionRequest {
    type V = ExecutionModel;

    open spec fn view(&self) -> ExecutionModel {
        ExecutionModel {
            credential: self.credential,
            operation: self.operation,
            inputs: self.inputs@,
            fee_record: self.fee_record,
            fee: self.fee,
            query: self.query,
        }
    }
}

/// What the engine is handed: the request, and the source of randomness to
/// draw from while it works.
pub struct EngineCall {
    pub request: ExecutionRequest,
    pub rng: ThreadRng,
}

/// The state query that a call builds from the service endpoint, or the lack
/// of an endpoint to build it from.
pub open spec fn query_from(endpoint: Option<String>) -> Result<
    ChainStateQuery,
    ConfigurationError,
> {
    match endpoint {
        Some(base_url) => Ok(ChainStateQuery { base_url }),
        None => Err(ConfigurationError::NotConfigured),
    }
}

/// How a call begins. The request is validated first, and an invalid request
/// ends the call there. Then the state query is built, and a client without
/// an endpoint ends the call there.
pub open spec fn accepted(endpoint: Option<String>, request: OperationRequest) -> Result<
    AcceptedRequest,
    CallError,
> {
    match request.verdict() {
        Err(error) => Err(CallError::Validation(error)),
        Ok(_) => match query_from(endpoint) {
            Err(error) => Err(CallError::Configuration(error)),
            Ok(query) => Ok(AcceptedRequest { request, query }),
        },
    }
}

/// What the credential resolver's answer leads to: with a credential, what
/// the engine is handed, but for the randomness; without one the end of the
/// call, whatever the resolver's reason.
pub open spec fn after_credential(
    pending: AcceptedRequest,
    answer: Result<SigningCredential, CredentialError>,
) -> Result<ExecutionModel, CallError> {
    match answer {
        Ok(credential) => Ok(pending.execution(credential)),
        Err(_) => Err(CallError::Configuration(ConfigurationError::NoCredential)),
    }
}

/// What the engine's answer leads to: the transaction to broadcast, or the
/// end of the call with the engine's own error.
pub open spec fn after_execution(answer: Result<TransactionArtifact, EngineError>) -> Result<
    TransactionArtifact,
    CallError,
> {
    match answer {
        Ok(artifact) => Ok(artifact),
        Err(error) => Err(CallError::Engine(error)),
    }
}

/// What the broadcaster's answer leads to: the transaction identifier, or the
/// broadcaster's own error.
pub open spec fn after_broadcast(answer: Result<String, BroadcastError>) -> Result<
    String,
    CallError,
> {
    match answer {
        Ok(transaction_id) => Ok(transaction_id),
        Err(error) => Err(CallError::Broadcast(error)),
    }
}

impl AcceptedRequest {
    /// What the engine is handed once `credential` is resolved: the
    /// operation's name and inputs, the fee and the record that pays it, and
    /// the state query, all taken from the request as it stands.
    pub open spec fn execution(self, credential: SigningCredential) -> ExecutionModel {
        ExecutionModel {
            credential,
            operation: self.request.operation(),
            inputs: self.request.inputs(),
            fee_record: self.request.fee_record(),
            fee: self.request.fee_amount(),
            query: Some(self.query),
        }
    }

    /// Puts the engine call together from the request, the credential and a
    /// source of randomness.
    pub fn assemble(self, credential: SigningCredential, rng: ThreadRng) -> (call: EngineCall)
        ensures
            call.request@ == self.execution(credential),
            call.request@.well_formed(),
            call.rng == rng,
    {
        let query = Some(self.query);
        let mut inputs: Vec<Value> = Vec::new();
        let request = match self.request {
            OperationRequest::Join { record_a, record_b, fee } => {
                inputs.push(Value::Record(record_a));
                inputs.push(Value::Record(record_b));
                ExecutionRequest {
                    credential,
                    operation: Operation::Join,
                    inputs,
                    fee_record: fee.record,
                    fee: fee.amount,
                    query,
                }
            },
            OperationRequest::Split { record, split_amount } => {
                inputs.push(Value::Record(record));
                inputs.push(Value::U64(split_amount));
                ExecutionRequest {
                    credential,
                    operation: Operation::Split,
                    inputs,
                    fee_record: None,
                    fee: 0,
                    query,
                }
            },
        };
        assert(request.inputs@ =~= self.request.inputs());
        EngineCall { request, rng }
    }

    /// Takes the credential resolver's answer. With a credential the engine
    /// call is put together, with a fresh source of randomness; without one
    /// the call ends.
    pub fn resolved(self, answer: Result<SigningCredential, CredentialError>) -> (result: Result<
        EngineCall,
        CallError,
    >)
        ensures
            match result {
                Ok(call) => after_credential(self, answer) == Ok::<ExecutionModel, CallError>(
                    call.request@,
                ) && call.request@.well_formed(),
                Err(error) => after_credential(self, answer) == Err::<ExecutionModel, CallError>(
                    error,
                ),
            },
            result is Ok <==> answer is Ok,
    {
        match answer {
            Ok(credential) => {
                let rng = entropy_source();
                Ok(self.assemble(credential, rng))
            },
            Err(_) => Err(CallError::Configuration(ConfigurationError::NoCredential)),
        }
    }
}

/// Takes the engine's answer. What it produced goes on to be broadcast; its
/// error ends the call.
pub fn conclude_execution(answer: Result<TransactionArtifact, EngineError>) -> (result: Result<
    TransactionArtifact,
    CallError,
>)
    ensures
        result == after_execution(answer),
        result is Ok <==> answer is Ok,
{
    match answer {
        Ok(artifact) => Ok(artifact),
        Err(error) => Err(CallError::Engine(error)),
    }
}

/// Takes the broadcaster's answer, which is the answer of the whole call: the
/// transaction identifier, or the broadcaster's error.
pub fn conclude_broadcast(answer: Result<String, BroadcastError>) -> (result: Result<
    String,
    CallError,
>)
    ensures
        result == after_broadcast(answer),
        result is Ok <==> answer is Ok,
{
    match answer {
        Ok(transaction_id) => Ok(transaction_id),
        Err(error) => Err(CallError::Broadcast(error)),
    }
}

} // verus!
