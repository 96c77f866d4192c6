use rand::RngCore;
use record_ops::error::{
    BroadcastError, CallError, ConfigurationError, CredentialError, EngineError,
};
use record_ops::record::{
    AccessError, FeeSpecification, Operation, OperationRequest, Value, ValueRecord,
};
use record_ops::steps::{
    conclude_broadcast, conclude_execution, AcceptedRequest, ChainStateQuery, EngineCall,
    SigningCredential, TransactionArtifact,
};

const ENDPOINT: &str = "https://node.example/testnet";

fn record(name: &str, microcredits: u64) -> ValueRecord {
    ValueRecord::new(format!("{{ owner: {name}, microcredits: {microcredits}u64 }}"), Ok(microcredits))
}

fn sealed(name: &str) -> ValueRecord {
    ValueRecord::new(format!("record-ciphertext-of-{name}"), Err(AccessError))
}

fn credential() -> SigningCredential {
    SigningCredential { key: "signing-key-of-alice".to_string() }
}

fn query() -> ChainStateQuery {
    ChainStateQuery { base_url: ENDPOINT.to_string() }
}

fn accepted_join(fee_record: Option<ValueRecord>, fee: u64) -> AcceptedRequest {
    AcceptedRequest {
        request: OperationRequest::Join {
            record_a: record("a", 1),
            record_b: record("b", 2),
            fee: FeeSpecification { record: fee_record, amount: fee },
        },
        query: query(),
    }
}

fn accepted_split(microcredits: u64, split_amount: u64) -> AcceptedRequest {
    AcceptedRequest {
        request: OperationRequest::Split { record: record("a", microcredits), split_amount },
        query: query(),
    }
}

fn assembled(result: Result<EngineCall, CallError>) -> EngineCall {
    match result {
        Ok(call) => call,
        Err(error) => panic!("the call ended early: {error:?}"),
    }
}

#[test]
fn join_hands_the_engine_both_records_and_the_fee() {
    let call = assembled(accepted_join(Some(record("fee", 10)), 5).resolved(Ok(credential())));
    assert!(call.request.credential == credential());
    assert_eq!(call.request.operation, Operation::Join);
    assert_eq!(call.request.operation.program(), "credits");
    assert_eq!(call.request.operation.function(), "join");
    assert_eq!(
        call.request.inputs,
        vec![Value::Record(record("a", 1)), Value::Record(record("b", 2))]
    );
    assert_eq!(call.request.fee_record, Some(record("fee", 10)));
    assert_eq!(call.request.fee, 5);
    assert_eq!(call.request.query, Some(query()));
}

#[test]
fn join_without_fee_record_hands_the_engine_none() {
    let call = assembled(accepted_join(None, 0).resolved(Ok(credential())));
    assert_eq!(call.request.fee_record, None);
    assert_eq!(call.request.fee, 0);
    assert_eq!(call.request.inputs.len(), 2);
}

#[test]
fn join_without_fee_record_keeps_the_fee_asked_for() {
    let call = assembled(accepted_join(None, 7).resolved(Ok(credential())));
    assert_eq!(call.request.fee_record, None);
    assert_eq!(call.request.fee, 7);
}

#[test]
fn join_hands_on_records_it_never_read() {
    let pending = AcceptedRequest {
        request: OperationRequest::Join {
            record_a: sealed("a"),
            record_b: sealed("b"),
            fee: FeeSpecification { record: None, amount: 0 },
        },
        query: query(),
    };
    let call = assembled(pending.resolved(Ok(credential())));
    assert_eq!(
        call.request.inputs,
        vec![Value::Record(sealed("a")), Value::Record(sealed("b"))]
    );
}

#[test]
fn split_hands_the_engine_the_record_and_the_amount() {
    let call = assembled(accepted_split(100, 40).resolved(Ok(credential())));
    assert!(call.request.credential == credential());
    assert_eq!(call.request.operation, Operation::Split);
    assert_eq!(call.request.operation.program(), "credits");
    assert_eq!(call.request.operation.function(), "split");
    assert_eq!(
        call.request.inputs,
        vec![Value::Record(record("a", 100)), Value::U64(40)]
    );
    assert_eq!(call.request.inputs[1].to_text(), "40u64");
    assert_eq!(call.request.fee_record, None);
    assert_eq!(call.request.fee, 0);
    assert_eq!(call.request.query, Some(query()));
}

#[test]
fn split_of_the_whole_record_hands_on_the_whole_amount() {
    let call = assembled(accepted_split(100, 100).resolved(Ok(credential())));
    assert_eq!(call.request.inputs[1], Value::U64(100));
    assert_eq!(call.request.inputs[1].to_text(), "100u64");
}

#[test]
fn assemble_keeps_the_randomness_it_is_given() {
    let call = accepted_split(100, 40).assemble(credential(), rand::thread_rng());
    assert!(call.request.credential == credential());
    assert_eq!(call.request.operation, Operation::Split);
    assert_eq!(call.request.inputs.len(), 2);
    assert_eq!(call.request.fee, 0);
}

#[test]
fn engine_call_carries_a_live_source_of_randomness() {
    let mut call = assembled(accepted_split(100, 40).resolved(Ok(credential())));
    let mut first = [0u8; 32];
    let mut second = [0u8; 32];
    call.rng.fill_bytes(&mut first);
    call.rng.fill_bytes(&mut second);
    assert_ne!(first, second);
    assert_ne!(first, [0u8; 32]);
}

#[test]
fn missing_credential_ends_the_call() {
    let answer = Err(CredentialError { reason: "no key in the store".to_string() });
    match accepted_split(100, 40).resolved(answer) {
        Ok(_) => panic!("an engine call was assembled without a credential"),
        Err(error) => {
            assert_eq!(error, CallError::Configuration(ConfigurationError::NoCredential))
        }
    }
}

#[test]
fn missing_credential_ends_the_call_whatever_the_reason() {
    for reason in ["", "locked", "no such identity"] {
        let answer = Err(CredentialError { reason: reason.to_string() });
        match accepted_join(None, 0).resolved(answer) {
            Ok(_) => panic!("an engine call was assembled without a credential"),
            Err(error) => {
                assert_eq!(error, CallError::Configuration(ConfigurationError::NoCredential))
            }
        }
    }
}

#[test]
fn engine_output_goes_on_to_broadcast() {
    let artifact = TransactionArtifact { body: "{\"type\":\"execute\"}".to_string() };
    assert_eq!(
        conclude_execution(Ok(artifact)),
        Ok(TransactionArtifact { body: "{\"type\":\"execute\"}".to_string() })
    );
}

#[test]
fn engine_failure_ends_the_call_with_its_diagnostic() {
    assert_eq!(
        conclude_execution(Err(EngineError::ExecutionFailed("proof rejected".to_string()))),
        Err(CallError::Engine(EngineError::ExecutionFailed("proof rejected".to_string())))
    );
}

#[test]
fn engine_that_cannot_start_ends_the_call() {
    assert_eq!(
        conclude_execution(Err(EngineError::EngineInitFailed)),
        Err(CallError::Engine(EngineError::EngineInitFailed))
    );
}

#[test]
fn broadcast_answer_is_the_answer_of_the_call() {
    assert_eq!(conclude_broadcast(Ok("at1qyqszqgp".to_string())), Ok("at1qyqszqgp".to_string()));
}

#[test]
fn broadcast_failure_is_passed_on() {
    assert_eq!(
        conclude_broadcast(Err(BroadcastError::BroadcastFailed("connection reset".to_string()))),
        Err(CallError::Broadcast(BroadcastError::BroadcastFailed("connection reset".to_string())))
    );
}
