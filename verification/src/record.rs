//! Value records and the two requests that reshape them.

use crate::literal::{u64_literal, u64_literal_text};
use vstd::prelude::*;

verus! {

/// A record's carried value could not be read: the record does not decrypt
/// under the holder's key, or it belongs to someone else.
#[derive(Clone, Copy, Debug, PartialEq, Eq)]
pub struct AccessError;

/// A privately owned unit of value.
///
/// The record itself is opaque here: `text` is what the ledger wrote, kept
/// only to be handed on. The one thing that is read is the amount it carries,
/// and that read can fail.
#[derive(Debug, PartialEq, Eq)]
pub struct ValueRecord {
    text: String,
    carried: Result<u64, AccessError>,
}

impl ValueRecord {
    /// The record as the ledger wrote it.
    pub closed spec fn text(self) -> Seq<char> {
        self.text@
    }

    /// What reading the carried amount gives: the microcredits, or the
    /// failure to read them.
    pub closed spec fn carried(self) -> Result<u64, AccessError> {
        self.carried
    }

    /// A record with the given text, whose carried amount reads as `carried`.
    pub fn new(text: String, carried: Result<u64, AccessError>) -> (record: Self)
        ensures
            record.text() == text@,
            record.carried() == carried,
    {
        ValueRecord { text, carried }
    }

    /// Reads the microcredits the record carries.
    pub fn read_value(&self) -> (value: Result<u64, AccessError>)
        ensures
            value == self.carried(),
    {
        self.carried
    }

    /// The record as the ledger wrote it.
    pub fn as_text(&self) -> (text: &str)
        ensures
            text@ == self.text(),
    {
        self.text.as_str()
    }
}

/// The fee a join pays: the amount asked for, and the record that pays it,
/// if any.
#[derive(Debug, PartialEq, Eq)]
pub struct FeeSpecification {
    pub record: Option<ValueRecord>,
    pub amount: u64,
}

impl FeeSpecification {
    /// Whether the fee record, where there is one, is known to carry at least
    /// the fee. A specification without a record is covered whatever the
    /// amount.
    pub open spec fn covered(self) -> bool {
        self.record matches Some(record) ==> (record.carried() matches Ok(value) && value
            >= self.amount)
    }

    /// Whether the specification can be honoured: it is covered, and it asks
    /// for no fee where no record is there to pay one. Validation of a join
    /// asks for the first only.
    pub open spec fn well_formed(self) -> bool {
        &&& self.covered()
        &&& self.record is None ==> self.amount == 0
    }
}

/// The two operations on the credits program that reshape records.
#[derive(Clone, Copy, Debug, PartialEq, Eq)]
pub enum Operation {
    Join,
    Split,
}

impl Operation {
    /// The name of the program that both operations belong to.
    pub open spec fn program_name(self) -> Seq<char> {
        "credits"@
    }

    /// The name of the operation within the program.
    pub open spec fn function_name(self) -> Seq<char> {
        match self {
            Operation::Join => "join"@,
            Operation::Split => "split"@,
        }
    }

    /// The name of the program that both operations belong to.
    pub fn program(&self) -> (name: &'static str)
        ensures
            name@ == self.program_name(),
    {
        "credits"
    }

    /// The name of the operation within the program.
    pub fn function(&self) -> (name: &'static str)
        ensures
            name@ == self.function_name(),
    {
        match self {
            Operation::Join => "join",
            Operation::Split => "split",
        }
    }
}

/// One input of an operation, as the execution engine takes it.
#[derive(Debug, PartialEq, Eq)]
pub enum Value {
    /// A record that the operation consumes.
    Record(ValueRecord),
    /// An unsigned 64-bit literal.
    U64(u64),
}

impl Value {
    /// The input written out: a record as the ledger wrote it, a number as
    /// its decimal digits followed by `u64`.
    pub open spec fn text(self) -> Seq<char> {
        match self {
            Value::Record(record) => record.text(),
            Value::U64(amount) => u64_literal_text(amount),
        }
    }

    /// Writes the input out for the engine to read.
    pub fn to_text(&self) -> (text: String)
        ensures
            text@ == self.text(),
    {
        match self {
            Value::Record(record) => record.as_text().to_owned(),
            Value::U64(amount) => u64_literal(*amount),
        }
    }
}

/// A request to reshape records. A split takes no fee record, so none can be
/// given.
#[derive(Debug, PartialEq, Eq)]
pub enum OperationRequest {
    /// Merge two records into one.
    Join { record_a: ValueRecord, record_b: ValueRecord, fee: FeeSpecification },
    /// Part one record in two, the first of which carries `split_amount` and
    /// the second the rest.
    Split { record: ValueRecord, split_amount: u64 },
}

impl OperationRequest {
    /// The request that a join of these arguments makes.
    pub open spec fn join_of(
        record_a: ValueRecord,
        record_b: ValueRecord,
        fee_record: Option<ValueRecord>,
        fee: u64,
    ) -> OperationRequest {
        OperationRequest::Join {
            record_a,
            record_b,
            fee: FeeSpecification { record: fee_record, amount: fee },
        }
    }

    /// The request that a split of these arguments makes.
    pub open spec fn split_of(record: ValueRecord, split_amount: u64) -> OperationRequest {
        OperationRequest::Split { record, split_amount }
    }

    /// The operation that the request asks for.
    pub open spec fn operation(self) -> Operation {
        match self {
            OperationRequest::Join { .. } => Operation::Join,
            OperationRequest::Split { .. } => Operation::Split,
        }
    }

    /// The inputs of the operation, in the order the program declares them.
    pub open spec fn inputs(self) -> Seq<Value> {
        match self {
            OperationRequest::Join { record_a, record_b, fee } => seq![
                Value::Record(record_a),
                Value::Record(record_b),
            ],
            OperationRequest::Split { record, split_amount } => seq![
                Value::Record(record),
                Value::U64(split_amount),
            ],
        }
    }

    /// The record that pays the fee, if any.
    pub open spec fn fee_record(self) -> Option<ValueRecord> {
        match self {
            OperationRequest::Join { record_a, record_b, fee } => fee.record,
            OperationRequest::Split { .. } => None,
        }
    }

    /// The fee that the operation pays: nothing for a split.
    pub open spec fn fee_amount(self) -> u64 {
        match self {
            OperationRequest::Join { record_a, record_b, fee } => fee.amount,
            OperationRequest::Split { .. } => 0,
        }
    }
}

} // verus!
