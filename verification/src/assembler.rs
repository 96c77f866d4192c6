//! The client through which joins and splits are made, and the call from end
//! to end.

use crate::error::{BroadcastError, CallError, ConfigurationError, CredentialError, EngineError};
use crate::parties::Collaborators;
use crate::pipeline::{
    call_outcome,
    can_answer,
    disciplined,
    exchanges,
    lemma_call_is_disciplined,
    Answers,
};
use crate::record::{FeeSpecification, OperationRequest, ValueRecord};
use crate::steps::{
    accepted,
    conclude_broadcast,
    conclude_execution,
    query_from,
    AcceptedRequest,
    ChainStateQuery,
    EngineCall,
    Identity,
    SigningCredential,
    TransactionArtifact,
};
use vstd::prelude::*;

verus! {

/// The client through which joins and splits are made. It holds the service
/// endpoint, if one is set.
pub struct ProgramManager {
    endpoint: Option<String>,
}

/// What a call on `request` leaves behind: the same parties, a result that
/// is the outcome on some answers that the parties can give, and a record
/// that has grown by exactly the exchanges that go with those answers.
pub open spec fn call_made<R, E, B>(
    endpoint: Option<String>,
    request: OperationRequest,
    before: Collaborators<R, E, B>,
    after: Collaborators<R, E, B>,
    result: Result<String, CallError>,
) -> bool where
    R: Fn(Option<Identity>) -> Result<SigningCredential, CredentialError>,
    E: Fn(EngineCall) -> Result<TransactionArtifact, EngineError>,
    B: Fn(TransactionArtifact) -> Result<String, BroadcastError>,
 {
    &&& after.same_parties(before)
    &&& exists|answers: Answers|
        {
            &&& #[trigger] can_answer(before, endpoint, request, answers)
            &&& result == call_outcome(endpoint, request, answers)
            &&& after.log() == before.log() + exchanges(endpoint, request, answers)
        }
}

impl ProgramManager {
    /// The service endpoint that the client was set up with, if any.
    pub closed spec fn endpoint(self) -> Option<String> {
        self.endpoint
    }

    /// A client for the service at `endpoint`, or one without a service.
    pub fn new(endpoint: Option<String>) -> (manager: Self)
        ensures
            manager.endpoint() == endpoint,
    {
        ProgramManager { endpoint }
    }

    /// Builds the state query for one call from the service endpoint.
    pub fn state_query(&self) -> (result: Result<ChainStateQuery, ConfigurationError>)
        ensures
            result == query_from(self.endpoint()),
    {
        match &self.endpoint {
            Some(base_url) => Ok(ChainStateQuery { base_url: base_url.clone() }),
            None => Err(ConfigurationError::NotConfigured),
        }
    }

    /// Begins a call: validates the request, then builds the state query.
    /// It is handed no party, and so asks none.
    pub fn begin(&self, request: OperationRequest) -> (result: Result<AcceptedRequest, CallError>)
        ensures
            result == accepted(self.endpoint(), request),
            request.verdict() matches Err(error) ==> result == Err::<AcceptedRequest, CallError>(
                CallError::Validation(error),
            ),
    {
        match request.validate() {
            Err(error) => Err(CallError::Validation(error)),
            Ok(_) => match self.state_query() {
                Err(error) => Err(CallError::Configuration(error)),
                Ok(query) => Ok(AcceptedRequest { request, query }),
            },
        }
    }

    /// Makes the call that `request` asks for, from validation to broadcast,
    /// and returns the transaction's identifier.
    ///
    /// The result is the error of the first step that fails, or else what
    /// the broadcaster answered. The record of `parties` grows by the
    /// exchanges of this call and by nothing else: none for an invalid
    /// request or a missing endpoint, and otherwise the resolver, then the
    /// engine, then the broadcaster, each once and none after a step has
    /// failed.
    pub fn perform<R, E, B>(
        &self,
        parties: &mut Collaborators<R, E, B>,
        request: OperationRequest,
    ) -> (result: Result<String, CallError>) where
        R: Fn(Option<Identity>) -> Result<SigningCredential, CredentialError>,
        E: Fn(EngineCall) -> Result<TransactionArtifact, EngineError>,
        B: Fn(TransactionArtifact) -> Result<String, BroadcastError>,

        ensures
            call_made(self.endpoint(), request, *old(parties), *final(parties), result),
            disciplined(
                self.endpoint(),
                request,
                old(parties).log(),
                final(parties).log(),
                result,
            ),
            request.verdict() matches Err(error) ==> result == Err::<String, CallError>(
                CallError::Validation(error),
            ),
            request.verdict() is Ok && self.endpoint() is None ==> result == Err::<
                String,
                CallError,
            >(CallError::Configuration(ConfigurationError::NotConfigured)),
    {
        let ghost endpoint = self.endpoint();
        let ghost before = *parties;
        let pending = match self.begin(request) {
            Ok(pending) => pending,
            Err(error) => {
                proof {
                    let unasked = Answers {
                        credential: arbitrary(),
                        execution: arbitrary(),
                        broadcast: arbitrary(),
                    };
                    assert(can_answer(before, endpoint, request, unasked));
                    assert(parties.log() =~= before.log() + exchanges(endpoint, request, unasked));
                    lemma_call_is_disciplined(endpoint, request, unasked, before.log());
                }
                return Err(error);
            },
        };
        let credential = parties.signing_credential(None);
        let ghost credential_answer = credential;
        let call = match pending.resolved(credential) {
            Ok(call) => call,
            Err(error) => {
                proof {
                    let unasked = Answers {
                        credential: credential_answer,
                        execution: arbitrary(),
                        broadcast: arbitrary(),
                    };
                    assert(can_answer(before, endpoint, request, unasked));
                    assert(parties.log() =~= before.log() + exchanges(endpoint, request, unasked));
                    lemma_call_is_disciplined(endpoint, request, unasked, before.log());
                }
                return Err(error);
            },
        };
        let ghost handed = call;
        let produced = parties.execute(call);
        let ghost execution_answer = produced;
        let artifact = match conclude_execution(produced) {
            Ok(artifact) => artifact,
            Err(error) => {
                proof {
                    let unasked = Answers {
                        credential: credential_answer,
                        execution: execution_answer,
                        broadcast: arbitrary(),
                    };
                    assert(call_ensures(before.engine(), (handed,), unasked.execution));
                    assert(can_answer(before, endpoint, request, unasked));
                    assert(parties.log() =~= before.log() + exchanges(endpoint, request, unasked));
                    lemma_call_is_disciplined(endpoint, request, unasked, before.log());
                }
                return Err(error);
            },
        };
        let submitted = parties.broadcast(artifact);
        let ghost given = Answers {
            credential: credential_answer,
            execution: execution_answer,
            broadcast: submitted,
        };
        let result = conclude_broadcast(submitted);
        proof {
            assert(call_ensures(before.engine(), (handed,), given.execution));
            assert(can_answer(before, endpoint, request, given));
            assert(parties.log() =~= before.log() + exchanges(endpoint, request, given));
            lemma_call_is_disciplined(endpoint, request, given, before.log());
        }
        result
    }

    /// Merges two records into one, paying `fee` from `fee_record` where one
    /// is given, and returns the transaction's identifier.
    pub fn join<R, E, B>(
        &self,
        parties: &mut Collaborators<R, E, B>,
        record_a: ValueRecord,
        record_b: ValueRecord,
        fee_record: Option<ValueRecord>,
        fee: u64,
    ) -> (result: Result<String, CallError>) where
        R: Fn(Option<Identity>) -> Result<SigningCredential, CredentialError>,
        E: Fn(EngineCall) -> Result<TransactionArtifact, EngineError>,
        B: Fn(TransactionArtifact) -> Result<String, BroadcastError>,

        ensures
            call_made(
                self.endpoint(),
                OperationRequest::join_of(record_a, record_b, fee_record, fee),
                *old(parties),
                *final(parties),
                result,
            ),
            disciplined(
                self.endpoint(),
                OperationRequest::join_of(record_a, record_b, fee_record, fee),
                old(parties).log(),
                final(parties).log(),
                result,
            ),
            OperationRequest::join_of(record_a, record_b, fee_record, fee).verdict() matches Err(
                error,
            ) ==> result == Err::<String, CallError>(CallError::Validation(error)),
    {
        self.perform(
            parties,
            OperationRequest::Join {
                record_a,
                record_b,
                fee: FeeSpecification { record: fee_record, amount: fee },
            },
        )
    }

    /// Parts a record in two, the first of which is to carry `split_amount`
    /// and the second the rest, and returns the transaction's identifier. A
    /// split pays no fee.
    pub fn split<R, E, B>(
        &self,
        parties: &mut Collaborators<R, E, B>,
        record: ValueRecord,
        split_amount: u64,
    ) -> (result: Result<String, CallError>) where
        R: Fn(Option<Identity>) -> Result<SigningCredential, CredentialError>,
        E: Fn(EngineCall) -> Result<TransactionArtifact, EngineError>,
        B: Fn(TransactionArtifact) -> Result<String, BroadcastError>,

        ensures
            call_made(
                self.endpoint(),
                OperationRequest::split_of(record, split_amount),
                *old(parties),
                *final(parties),
                result,
            ),
            disciplined(
                self.endpoint(),
                OperationRequest::split_of(record, split_amount),
                old(parties).log(),
                final(parties).log(),
                result,
            ),
            OperationRequest::split_of(record, split_amount).verdict() matches Err(error)
                ==> result == Err::<String, CallError>(CallError::Validation(error)),
    {
        self.perform(parties, OperationRequest::Split { record, split_amount })
    }
}

} // verus!
