//! The rules that a request must meet before any collaborator is asked to
//! work on it.

use crate::error::ValidationError;
use crate::record::{FeeSpecification, OperationRequest, ValueRecord};
use vstd::prelude::*;

verus! {

/// What validation of a join says of a fee specification. Only the fee record
/// is looked at, and only where there is one: what the two records to merge
/// carry plays no part.
pub open spec fn join_verdict(fee: FeeSpecification) -> Result<(), ValidationError> {
    match fee.record {
        None => Ok(()),
        Some(record) => match record.carried() {
            Err(_) => Err(ValidationError::RecordUnreadable),
            Ok(value) => if value < fee.amount {
                Err(ValidationError::InsufficientFee)
            } else {
                Ok(())
            },
        },
    }
}

/// What validation of a split says of a record and the amount to split off.
/// A record that carries exactly the amount passes.
pub open spec fn split_verdict(record: ValueRecord, split_amount: u64) -> Result<
    (),
    ValidationError,
> {
    match record.carried() {
        Err(_) => Err(ValidationError::RecordUnreadable),
        Ok(value) => if value < split_amount {
            Err(ValidationError::InsufficientBalance)
        } else {
            Ok(())
        },
    }
}

impl OperationRequest {
    /// What validation says of the request, by the rule for its shape.
    pub open spec fn verdict(self) -> Result<(), ValidationError> {
        match self {
            OperationRequest::Join { record_a, record_b, fee } => join_verdict(fee),
            OperationRequest::Split { record, split_amount } => split_verdict(record, split_amount),
        }
    }

    /// Validates the request by the rule for its shape.
    pub fn validate(&self) -> (result: Result<(), ValidationError>)
        ensures
            result == self.verdict(),
    {
        match self {
            OperationRequest::Join { record_a, record_b, fee } => validate_join(
                record_a,
                record_b,
                fee,
            ),
            OperationRequest::Split { record, split_amount } => validate_split(
                record,
                *split_amount,
            ),
        }
    }
}

/// Validates a join: where a fee record is given, it must be readable and
/// carry at least the fee. Without a fee record nothing is asked, whatever the
/// fee; the two records to merge are not read.
#[allow(unused_variables)]
pub fn validate_join(
    record_a: &ValueRecord,
    record_b: &ValueRecord,
    fee_spec: &FeeSpecification,
) -> (result: Result<(), ValidationError>)
    ensures
        result == join_verdict(*fee_spec),
        result == Err::<(), ValidationError>(ValidationError::InsufficientFee) <==> (
        fee_spec.record matches Some(record) && record.carried() matches Ok(value) && value
            < fee_spec.amount),
        result == Err::<(), ValidationError>(ValidationError::RecordUnreadable) <==> (
        fee_spec.record matches Some(record) && record.carried() is Err),
        result is Ok <==> fee_spec.covered(),
        fee_spec.well_formed() ==> result is Ok,
        fee_spec.record is None ==> result is Ok,
        result != Err::<(), ValidationError>(ValidationError::InsufficientBalance),
{
    match &fee_spec.record {
        None => Ok(()),
        Some(record) => match record.read_value() {
            Err(_) => Err(ValidationError::RecordUnreadable),
            Ok(value) => if value < fee_spec.amount {
                Err(ValidationError::InsufficientFee)
            } else {
                Ok(())
            },
        },
    }
}

/// Validates a split: the record must be readable and carry at least the amount
/// to split off.
pub fn validate_split(record: &ValueRecord, split_amount: u64) -> (result: Result<
    (),
    ValidationError,
>)
    ensures
        result == split_verdict(*record, split_amount),
        result == Err::<(), ValidationError>(ValidationError::InsufficientBalance) <==> (
        record.carried() matches Ok(value) && value < split_amount),
        result == Err::<(), ValidationError>(ValidationError::RecordUnreadable)
            <==> record.carried() is Err,
        result is Ok <==> (record.carried() matches Ok(value) && value >= split_amount),
        result != Err::<(), ValidationError>(ValidationError::InsufficientFee),
{
    match record.read_value() {
        Err(_) => Err(ValidationError::RecordUnreadable),
        Ok(value) => if value < split_amount {
            Err(ValidationError::InsufficientBalance)
        } else {
            Ok(())
        },
    }
}

} // verus!
