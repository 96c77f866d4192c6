//! Join and split of private value records: the rules that gate a request
//! and the steps that turn an accepted request into a broadcast transaction.
//!
//! A join merges two records into one; a split parts one record in two.
//! Either is validated here before anything else happens ([`validator`]),
//! and then built up into a transaction by three parties outside this
//! library: a credential resolver, an execution engine and a broadcaster.
//! [`parties`] is the one way to reach them, and keeps the record of what
//! they were asked. [`steps`] says what each of them is handed and what
//! follows from its answer; [`assembler`] makes the call from end to end;
//! [`pipeline`] says what a call returns and which exchanges it makes.

pub mod assembler;
pub mod entropy;
pub mod error;
pub mod literal;
pub mod parties;
pub mod pipeline;
pub mod record;
pub mod steps;
pub mod validator;
