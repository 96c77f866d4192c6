use record_ops::error::ValidationError;
use record_ops::record::{AccessError, FeeSpecification, OperationRequest, ValueRecord};
use record_ops::validator::{validate_join, validate_split};

fn record(name: &str, microcredits: u64) -> ValueRecord {
    ValueRecord::new(format!("{{ owner: {name}, microcredits: {microcredits}u64 }}"), Ok(microcredits))
}

fn sealed(name: &str) -> ValueRecord {
    ValueRecord::new(format!("record-ciphertext-of-{name}"), Err(AccessError))
}

#[test]
fn record_reads_back_what_it_carries() {
    let r = record("alice", 42);
    assert_eq!(r.read_value(), Ok(42));
    assert_eq!(r.as_text(), "{ owner: alice, microcredits: 42u64 }");
}

#[test]
fn sealed_record_does_not_read() {
    let r = sealed("bob");
    assert_eq!(r.read_value(), Err(AccessError));
    assert_eq!(r.as_text(), "record-ciphertext-of-bob");
}

#[test]
fn split_of_the_whole_record_passes() {
    assert_eq!(validate_split(&record("alice", 100), 100), Ok(()));
}

#[test]
fn split_beyond_the_record_fails() {
    assert_eq!(
        validate_split(&record("alice", 99), 100),
        Err(ValidationError::InsufficientBalance)
    );
}

#[test]
fn split_of_less_than_the_record_passes() {
    assert_eq!(validate_split(&record("alice", 100), 1), Ok(()));
    assert_eq!(validate_split(&record("alice", 100), 0), Ok(()));
    assert_eq!(validate_split(&record("alice", 0), 0), Ok(()));
    assert_eq!(validate_split(&record("alice", u64::MAX), u64::MAX), Ok(()));
}

#[test]
fn split_by_one_too_many_fails_at_both_ends() {
    assert_eq!(
        validate_split(&record("alice", 0), 1),
        Err(ValidationError::InsufficientBalance)
    );
    assert_eq!(
        validate_split(&record("alice", u64::MAX - 1), u64::MAX),
        Err(ValidationError::InsufficientBalance)
    );
}

#[test]
fn split_of_unreadable_record_fails() {
    assert_eq!(
        validate_split(&sealed("alice"), 0),
        Err(ValidationError::RecordUnreadable)
    );
    assert_eq!(
        validate_split(&sealed("alice"), 100),
        Err(ValidationError::RecordUnreadable)
    );
}

#[test]
fn join_with_covering_fee_record_passes() {
    let fee = FeeSpecification { record: Some(record("fee", 10)), amount: 5 };
    assert_eq!(validate_join(&record("a", 1), &record("b", 2), &fee), Ok(()));
}

#[test]
fn join_with_short_fee_record_fails() {
    let fee = FeeSpecification { record: Some(record("fee", 3)), amount: 5 };
    assert_eq!(
        validate_join(&record("a", 1), &record("b", 2), &fee),
        Err(ValidationError::InsufficientFee)
    );
}

#[test]
fn join_with_exactly_covering_fee_record_passes() {
    let fee = FeeSpecification { record: Some(record("fee", 5)), amount: 5 };
    assert_eq!(validate_join(&record("a", 1), &record("b", 2), &fee), Ok(()));
}

#[test]
fn join_without_fee_record_and_without_fee_passes() {
    let fee = FeeSpecification { record: None, amount: 0 };
    assert_eq!(validate_join(&record("a", 1), &record("b", 2), &fee), Ok(()));
}

#[test]
fn join_without_fee_record_is_never_short_of_fee() {
    for amount in [0, 1, 5, u64::MAX] {
        let fee = FeeSpecification { record: None, amount };
        assert_eq!(validate_join(&record("a", 0), &record("b", 0), &fee), Ok(()));
    }
}

#[test]
fn join_with_unreadable_fee_record_fails() {
    let fee = FeeSpecification { record: Some(sealed("fee")), amount: 0 };
    assert_eq!(
        validate_join(&record("a", 1), &record("b", 2), &fee),
        Err(ValidationError::RecordUnreadable)
    );
}

#[test]
fn join_does_not_read_the_records_it_merges() {
    let fee = FeeSpecification { record: Some(record("fee", 10)), amount: 5 };
    assert_eq!(validate_join(&sealed("a"), &sealed("b"), &fee), Ok(()));
    let none = FeeSpecification { record: None, amount: 7 };
    assert_eq!(validate_join(&sealed("a"), &record("b", 0), &none), Ok(()));
}

#[test]
fn join_does_not_weigh_the_merged_records_against_the_fee() {
    let fee = FeeSpecification { record: Some(record("fee", 1_000)), amount: 1_000 };
    assert_eq!(validate_join(&record("a", 0), &record("b", 0), &fee), Ok(()));
}

#[test]
fn request_is_validated_by_the_rule_for_its_shape() {
    let join = OperationRequest::Join {
        record_a: record("a", 1),
        record_b: record("b", 2),
        fee: FeeSpecification { record: Some(record("fee", 3)), amount: 5 },
    };
    assert_eq!(join.validate(), Err(ValidationError::InsufficientFee));
    let split = OperationRequest::Split { record: record("a", 99), split_amount: 100 };
    assert_eq!(split.validate(), Err(ValidationError::InsufficientBalance));
    let split = OperationRequest::Split { record: record("a", 100), split_amount: 100 };
    assert_eq!(split.validate(), Ok(()));
    let split = OperationRequest::Split { record: sealed("a"), split_amount: 1 };
    assert_eq!(split.validate(), Err(ValidationError::RecordUnreadable));
}
