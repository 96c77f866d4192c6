//! A call as a whole: what it returns and which exchanges it makes with the
//! parties, for every way the parties may answer.

use crate::error::{BroadcastError, CallError, ConfigurationError, CredentialError, EngineError};
use crate::parties::{Collaborator, Collaborators, Exchange};
use crate::record::OperationRequest;
use crate::steps::{
    accepted,
    after_broadcast,
    after_credential,
    after_execution,
    EngineCall,
    Identity,
    SigningCredential,
    TransactionArtifact,
};
use vstd::prelude::*;

verus! {

/// What each party answers if the call comes to ask it.
pub struct Answers {
    pub credential: Result<SigningCredential, CredentialError>,
    pub execution: Result<TransactionArtifact, EngineError>,
    pub broadcast: Result<String, BroadcastError>,
}

/// What a call returns when the parties answer as `answers` says: the error
/// of the first step that fails, or the broadcaster's transaction identifier.
pub open spec fn call_outcome(
    endpoint: Option<String>,
    request: OperationRequest,
    answers: Answers,
) -> Result<String, CallError> {
    match accepted(endpoint, request) {
        Err(error) => Err(error),
        Ok(pending) => match after_credential(pending, answers.credential) {
            Err(error) => Err(error),
            Ok(_) => match after_execution(answers.execution) {
                Err(error) => Err(error),
                Ok(_) => after_broadcast(answers.broadcast),
            },
        },
    }
}

/// The exchanges that a call makes, in order, when the parties answer as
/// `answers` says. None is made before the request is valid and the state
/// query built. Then the resolver is asked for the default identity; on its
/// credential the engine is handed the call assembled from the request; on
/// the engine's transaction the broadcaster is handed that transaction. A
/// step that fails is the last.
pub open spec fn exchanges(
    endpoint: Option<String>,
    request: OperationRequest,
    answers: Answers,
) -> Seq<Exchange> {
    match accepted(endpoint, request) {
        Err(_) => seq![],
        Ok(pending) => {
            let first = Exchange::Credential { selector: None, resolved: answers.credential };
            match after_credential(pending, answers.credential) {
                Err(_) => seq![first],
                Ok(execution) => {
                    let second = Exchange::Execution {
                        request: execution,
                        produced: answers.execution,
                    };
                    match after_execution(answers.execution) {
                        Err(_) => seq![first, second],
                        Ok(artifact) => seq![
                            first,
                            second,
                            Exchange::Broadcast { artifact, submitted: answers.broadcast },
                        ],
                    }
                },
            }
        },
    }
}

/// Whether `answers` holds, for each party that a call on `request` comes to
/// ask, an answer that this party can give to what the call hands it. Of a
/// party that the call does not come to ask, nothing is said.
pub open spec fn can_answer<R, E, B>(
    parties: Collaborators<R, E, B>,
    endpoint: Option<String>,
    request: OperationRequest,
    answers: Answers,
) -> bool where
    R: Fn(Option<Identity>) -> Result<SigningCredential, CredentialError>,
    E: Fn(EngineCall) -> Result<TransactionArtifact, EngineError>,
    B: Fn(TransactionArtifact) -> Result<String, BroadcastError>,
 {
    match accepted(endpoint, request) {
        Err(_) => true,
        Ok(pending) => {
            &&& call_ensures(parties.resolver(), (None::<Identity>,), answers.credential)
            &&& match after_credential(pending, answers.credential) {
                Err(_) => true,
                Ok(execution) => {
                    &&& exists|call: EngineCall|
                        call.request@ == execution && #[trigger] call_ensures(
                            parties.engine(),
                            (call,),
                            answers.execution,
                        )
                    &&& match after_execution(answers.execution) {
                        Err(_) => true,
                        Ok(artifact) => call_ensures(
                            parties.broadcaster(),
                            (artifact,),
                            answers.broadcast,
                        ),
                    }
                },
            }
        },
    }
}

/// How many of the exchanges in `log` were with `who`.
pub open spec fn times_asked(log: Seq<Exchange>, who: Collaborator) -> nat
    decreases log.len(),
{
    if log.len() == 0 {
        0
    } else if log.last().party() == who {
        times_asked(log.drop_last(), who) + 1
    } else {
        times_asked(log.drop_last(), who)
    }
}

/// The exchanges that were added to the record `before` to give `after`.
pub open spec fn added(before: Seq<Exchange>, after: Seq<Exchange>) -> Seq<Exchange> {
    after.skip(before.len() as int)
}

/// What one call may do to the record of exchanges, by what it returns.
///
/// The record only grows. An invalid request, and a client without an
/// endpoint, add nothing: nobody is asked. A call that ends for want of a
/// credential has asked the resolver and nobody else. A call that ends with
/// the engine's error has run the engine once and has not broadcast. A call
/// that ends with the broadcaster's error, and one that succeeds, have run
/// the engine once and tried to broadcast once. No party is asked twice.
pub open spec fn disciplined(
    endpoint: Option<String>,
    request: OperationRequest,
    before: Seq<Exchange>,
    after: Seq<Exchange>,
    result: Result<String, CallError>,
) -> bool {
    let asked = added(before, after);
    let resolved = times_asked(asked, Collaborator::CredentialResolver);
    let executed = times_asked(asked, Collaborator::ExecutionEngine);
    let broadcast = times_asked(asked, Collaborator::Broadcaster);
    &&& before.is_prefix_of(after)
    &&& asked.len() == resolved + executed + broadcast
    &&& resolved <= 1 && executed <= 1 && broadcast <= 1
    &&& request.verdict() is Err || endpoint is None ==> after == before
    &&& match result {
        Err(CallError::Validation(_)) => after == before,
        Err(CallError::Configuration(ConfigurationError::NotConfigured)) => after == before,
        Err(CallError::Configuration(ConfigurationError::NoCredential)) => resolved == 1
            && executed == 0 && broadcast == 0,
        Err(CallError::Engine(_)) => resolved == 1 && executed == 1 && broadcast == 0,
        Err(CallError::Broadcast(_)) => resolved == 1 && executed == 1 && broadcast == 1,
        Ok(_) => resolved == 1 && executed == 1 && broadcast == 1,
    }
}

/// Adding an exchange to a record adds one to the count of its party and
/// nothing to the others.
pub proof fn lemma_times_asked_push(log: Seq<Exchange>, exchange: Exchange, who: Collaborator)
    ensures
        times_asked(log.push(exchange), who) == times_asked(log, who) + if exchange.party()
            == who {
            1nat
        } else {
            0nat
        },
{
    assert(log.push(exchange).drop_last() =~= log);
}

/// The exchanges of a call are with the resolver, the engine and the
/// broadcaster in this order, each at most once, and stop at the first step
/// that fails.
pub proof fn lemma_exchanges_in_order(
    endpoint: Option<String>,
    request: OperationRequest,
    answers: Answers,
)
    ensures
        ({
            let made = exchanges(endpoint, request, answers);
            &&& made.len() <= 3
            &&& made.len() >= 1 ==> made[0].party() == Collaborator::CredentialResolver
            &&& made.len() >= 2 ==> made[1].party() == Collaborator::ExecutionEngine
            &&& made.len() >= 3 ==> made[2].party() == Collaborator::Broadcaster
            &&& times_asked(made, Collaborator::CredentialResolver) == if made.len() >= 1 {
                1nat
            } else {
                0nat
            }
            &&& times_asked(made, Collaborator::ExecutionEngine) == if made.len() >= 2 {
                1nat
            } else {
                0nat
            }
            &&& times_asked(made, Collaborator::Broadcaster) == if made.len() >= 3 {
                1nat
            } else {
                0nat
            }
        }),
{
    let made = exchanges(endpoint, request, answers);
    let none = Seq::<Exchange>::empty();
    assert forall|who: Collaborator|
        #![trigger times_asked(made, who)]
        {
            &&& made.len() == 0 ==> times_asked(made, who) == 0
            &&& made.len() == 1 ==> times_asked(made, who) == if made[0].party() == who {
                1nat
            } else {
                0nat
            }
            &&& made.len() == 2 ==> times_asked(made, who) == (if made[0].party() == who {
                1nat
            } else {
                0nat
            }) + (if made[1].party() == who {
                1nat
            } else {
                0nat
            })
            &&& made.len() == 3 ==> times_asked(made, who) == (if made[0].party() == who {
                1nat
            } else {
                0nat
            }) + (if made[1].party() == who {
                1nat
            } else {
                0nat
            }) + (if made[2].party() == who {
                1nat
            } else {
                0nat
            })
        } by {
        if made.len() >= 1 {
            lemma_times_asked_push(none, made[0], who);
            if made.len() == 1 {
                assert(made =~= none.push(made[0]));
            }
        }
        if made.len() >= 2 {
            lemma_times_asked_push(none.push(made[0]), made[1], who);
            if made.len() == 2 {
                assert(made =~= none.push(made[0]).push(made[1]));
            }
        }
        if made.len() >= 3 {
            lemma_times_asked_push(none.push(made[0]).push(made[1]), made[2], who);
            assert(made =~= none.push(made[0]).push(made[1]).push(made[2]));
        }
    }
}

/// A call whose result and exchanges are those of some answers keeps the
/// discipline, whatever stood in the record before it.
pub proof fn lemma_call_is_disciplined(
    endpoint: Option<String>,
    request: OperationRequest,
    answers: Answers,
    before: Seq<Exchange>,
)
    ensures
        disciplined(
            endpoint,
            request,
            before,
            before + exchanges(endpoint, request, answers),
            call_outcome(endpoint, request, answers),
        ),
{
    let made = exchanges(endpoint, request, answers);
    let after = before + made;
    lemma_exchanges_in_order(endpoint, request, answers);
    assert(added(before, after) =~= made);
    assert(before.is_prefix_of(after));
    if made.len() == 0 {
        assert(after =~= before);
    }
}

/// An invalid request ends the call with its validation error, and a valid
/// request on a client without an endpoint ends it with `NotConfigured`,
/// before any exchange is made: neither the credential resolver, nor the
/// engine, nor the broadcaster is asked. Whoever is asked, is asked on a
/// valid request.
pub proof fn lemma_rejected_request_asks_nobody(
    endpoint: Option<String>,
    request: OperationRequest,
    answers: Answers,
)
    ensures
        request.verdict() matches Err(error) ==> {
            &&& call_outcome(endpoint, request, answers) == Err::<String, CallError>(
                CallError::Validation(error),
            )
            &&& exchanges(endpoint, request, answers) == Seq::<Exchange>::empty()
        },
        request.verdict() is Ok && endpoint is None ==> {
            &&& call_outcome(endpoint, request, answers) == Err::<String, CallError>(
                CallError::Configuration(ConfigurationError::NotConfigured),
            )
            &&& exchanges(endpoint, request, answers) == Seq::<Exchange>::empty()
        },
        exchanges(endpoint, request, answers).len() > 0 ==> request.verdict() is Ok,
{
}

/// A call that succeeds has made exactly three exchanges: it resolved the
/// credential once, ran the engine once on the call assembled from the
/// request and that credential, and tried once to broadcast what the engine
/// produced. It returns what the broadcaster answered.
pub proof fn lemma_success_asks_each_once(
    endpoint: Option<String>,
    request: OperationRequest,
    answers: Answers,
)
    requires
        call_outcome(endpoint, request, answers) is Ok,
    ensures
        exchanges(endpoint, request, answers).len() == 3,
        times_asked(exchanges(endpoint, request, answers), Collaborator::CredentialResolver) == 1,
        times_asked(exchanges(endpoint, request, answers), Collaborator::ExecutionEngine) == 1,
        times_asked(exchanges(endpoint, request, answers), Collaborator::Broadcaster) == 1,
        request.verdict() is Ok,
        ({
            &&& accepted(endpoint, request) matches Ok(pending)
            &&& answers.credential matches Ok(credential)
            &&& answers.execution matches Ok(artifact)
            &&& answers.broadcast matches Ok(transaction_id)
            &&& exchanges(endpoint, request, answers)[1] == Exchange::Execution {
                request: pending.execution(credential),
                produced: answers.execution,
            }
            &&& exchanges(endpoint, request, answers)[2] == Exchange::Broadcast {
                artifact,
                submitted: answers.broadcast,
            }
            &&& call_outcome(endpoint, request, answers) == Ok::<String, CallError>(
                transaction_id,
            )
        }),
{
    lemma_exchanges_in_order(endpoint, request, answers);
}

/// When the engine is asked and answers with an error, the call returns that
/// error, the engine is not asked again and the broadcaster is never asked.
pub proof fn lemma_engine_error_ends_call(
    endpoint: Option<String>,
    request: OperationRequest,
    answers: Answers,
    error: EngineError,
)
    requires
        times_asked(exchanges(endpoint, request, answers), Collaborator::ExecutionEngine) >= 1,
        answers.execution == Err::<TransactionArtifact, EngineError>(error),
    ensures
        call_outcome(endpoint, request, answers) == Err::<String, CallError>(
            CallError::Engine(error),
        ),
        exchanges(endpoint, request, answers).len() == 2,
        times_asked(exchanges(endpoint, request, answers), Collaborator::ExecutionEngine) == 1,
        times_asked(exchanges(endpoint, request, answers), Collaborator::Broadcaster) == 0,
{
    lemma_exchanges_in_order(endpoint, request, answers);
}

} // verus!
