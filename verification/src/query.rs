//! Messages carried from the connector to the workers, and the raw replies
//! carried back.
//!
//! A message is an immutable description of one unit of work: raw SQL text,
//! or a structured query together with a tag saying what shape of result is
//! expected (a row count, one row, or many rows). Rows come back as plain
//! column values; decoding a row into a domain value happens on the caller
//! side, so the worker loop stays generic over unrelated row types.

use vstd::prelude::*;

verus! {

/// One column value of a raw database row.
#[derive(Clone, Debug, PartialEq)]
pub enum Col {
    Text(String),
    Int(i64),
    Null,
}

/// One raw row: a sequence of column values in select order.
pub type Row = Vec<Col>;

/// A structured query: SQL text plus bound parameters.
#[derive(Clone, Debug)]
pub struct Query {
    pub sql: String,
    pub params: Vec<Col>,
}

/// An immutable description of one unit of work, created by the connector
/// per call and consumed exactly once by exactly one worker. The variant is
/// the expected result shape.
#[derive(Debug)]
pub enum Message {
    /// Raw SQL text; the reply is the affected row count.
    RawExecute { sql: String },
    /// A structured insert/update/delete; the reply is the affected row count.
    TypedExecute { query: Query },
    /// A structured select expecting at most one row.
    FetchOne { query: Query },
    /// A structured select expecting any number of rows, in order.
    FetchAll { query: Query },
}

/// What a worker writes into the reply conduit after running one message
/// against its connection: a row count, the matched rows, or the driver's
/// failure.
#[derive(Clone, Debug)]
pub enum Reply {
    Count(u64),
    Rows(Vec<Row>),
    Failure(crate::error::QueryFailure),
}

/// A decoder turning one raw row into a domain value; `None` when the row
/// does not match the expected shape. Row types implement this so the
/// fetch operations can be generic over them.
pub trait FromRow: Sized {
    /// What `from_row` returns, as a function of the row's column values.
    spec fn spec_from_row(row: Seq<Col>) -> Option<Self>;

    /// Decode one raw row, or report a shape mismatch with `None`.
    fn from_row(row: &Row) -> (r: Option<Self>)
        ensures
            r == Self::spec_from_row(row@),
    ;
}

} // verus!
