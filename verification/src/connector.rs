//! The connector: the caller-facing side of the bridge. It builds one
//! message per call and, once the reply (or the transport's failure) comes
//! back through the conduit, shapes it into the caller's typed result.
//!
//! The four operations mirror the four message shapes: `execute` and
//! `raw_sql` expect an affected-row count, `fetch_first` expects exactly
//! one decoded row — zero rows is the distinguishable `NotFound` outcome,
//! not a query failure — and `fetch_all` expects any number of rows, an
//! empty sequence being a perfectly valid result.

use vstd::prelude::*;
use crate::error::ConnectorError;
use crate::query::{Col, FromRow, Message, Query, Reply, Row};

verus! {

/// True when every row decodes to a `T`.
pub open spec fn rows_decodable<T: FromRow>(rows: Seq<Row>) -> bool {
    forall|i: int| 0 <= i < rows.len() ==> T::spec_from_row((#[trigger] rows[i])@) is Some
}

/// Build the message for `execute(query)`.
pub fn execute_message(query: Query) -> (r: Message)
    ensures
        r matches Message::TypedExecute { query: q } && q == query,
{
    Message::TypedExecute { query }
}

/// Build the message for `raw_sql(text)`.
pub fn raw_sql_message(sql: String) -> (r: Message)
    ensures
        r matches Message::RawExecute { sql: s } && s == sql,
{
    Message::RawExecute { sql }
}

/// Build the message for `fetch_first(query)`.
pub fn fetch_first_message(query: Query) -> (r: Message)
    ensures
        r matches Message::FetchOne { query: q } && q == query,
{
    Message::FetchOne { query }
}

/// Build the message for `fetch_all(query)`.
pub fn fetch_all_message(query: Query) -> (r: Message)
    ensures
        r matches Message::FetchAll { query: q } && q == query,
{
    Message::FetchAll { query }
}

/// Shape the awaited reply of an `execute` or `raw_sql` call into the
/// caller's result: the affected-row count on success, the driver's
/// failure as a query error, a transport error passed through unchanged,
/// and a reply of the wrong shape as a decode error.
pub fn execute_outcome(awaited: Result<Reply, ConnectorError>) -> (r: Result<u64, ConnectorError>)
    ensures
        awaited matches Ok(rep) ==> match rep {
            Reply::Count(n) => r == Ok::<u64, ConnectorError>(n),
            Reply::Rows(_) => r == Err::<u64, ConnectorError>(ConnectorError::Decode),
            Reply::Failure(f) => (r matches Err(e) && e matches ConnectorError::Query(f2) && f2
                == f),
        },
        awaited matches Err(e) ==> r == Err::<u64, ConnectorError>(e),
{
    match awaited {
        Ok(Reply::Count(n)) => Ok(n),
        Ok(Reply::Rows(_)) => Err(ConnectorError::Decode),
        Ok(Reply::Failure(f)) => Err(ConnectorError::Query(f)),
        Err(e) => Err(e),
    }
}

/// Shape the awaited reply of a `fetch_first` call: zero rows is the
/// `NotFound` outcome — a valid result variant, distinguishable from a
/// query failure — one or more rows yield the first row decoded, a row of
/// the wrong shape is a decode error, and driver or transport failures
/// pass through as with `execute`.
pub fn fetch_first_outcome<T: FromRow>(awaited: Result<Reply, ConnectorError>) -> (r: Result<
    T,
    ConnectorError,
>)
    ensures
        awaited matches Ok(rep) ==> match rep {
            Reply::Rows(rows) => {
                &&& rows@.len() == 0 ==> r == Err::<T, ConnectorError>(ConnectorError::NotFound)
                &&& rows@.len() > 0 ==> match T::spec_from_row(rows@[0]@) {
                    Some(t) => r == Ok::<T, ConnectorError>(t),
                    None => r == Err::<T, ConnectorError>(ConnectorError::Decode),
                }
            },
            Reply::Count(_) => r == Err::<T, ConnectorError>(ConnectorError::Decode),
            Reply::Failure(f) => (r matches Err(e) && e matches ConnectorError::Query(f2) && f2
                == f),
        },
        awaited matches Err(e) ==> r == Err::<T, ConnectorError>(e),
{
    match awaited {
        Ok(Reply::Rows(rows)) => {
            if rows.len() == 0 {
                Err(ConnectorError::NotFound)
            } else {
                match T::from_row(&rows[0]) {
                    Some(t) => Ok(t),
                    None => Err(ConnectorError::Decode),
                }
            }
        },
        Ok(Reply::Count(_)) => Err(ConnectorError::Decode),
        Ok(Reply::Failure(f)) => Err(ConnectorError::Query(f)),
        Err(e) => Err(e),
    }
}

/// Shape the awaited reply of a `fetch_all` call: every row decoded, in
/// row order. Zero matching rows yield the empty sequence — never an
/// error. One undecodable row fails the whole call with a decode error.
pub fn fetch_all_outcome<T: FromRow>(awaited: Result<Reply, ConnectorError>) -> (r: Result<
    Vec<T>,
    ConnectorError,
>)
    ensures
        awaited matches Ok(rep) ==> match rep {
            Reply::Rows(rows) => {
                &&& rows_decodable::<T>(rows@) ==> (r matches Ok(v) && v@.len() == rows@.len()
                    && forall|i: int|
                    0 <= i < rows@.len() ==> T::spec_from_row(rows@[i]@) == Some(
                        #[trigger] v@[i],
                    ))
                &&& !rows_decodable::<T>(rows@) ==> r == Err::<Vec<T>, ConnectorError>(
                    ConnectorError::Decode,
                )
                &&& rows@.len() == 0 ==> (r matches Ok(v) && v@.len() == 0)
            },
            Reply::Count(_) => r == Err::<Vec<T>, ConnectorError>(ConnectorError::Decode),
            Reply::Failure(f) => (r matches Err(e) && e matches ConnectorError::Query(f2) && f2
                == f),
        },
        awaited matches Err(e) ==> r == Err::<Vec<T>, ConnectorError>(e),
{
    match awaited {
        Ok(Reply::Rows(rows)) => {
            let mut out: Vec<T> = Vec::new();
            let mut i: usize = 0;
            let n = rows.len();
            while i < n
                invariant
                    awaited matches Ok(rep) && rep matches Reply::Rows(r2) && r2 == rows,
                    n == rows@.len(),
                    i <= n,
                    out@.len() == i,
                    forall|k: int|
                        0 <= k < i ==> T::spec_from_row(rows@[k]@) == Some(#[trigger] out@[k]),
                decreases n - i,
            {
                match T::from_row(&rows[i]) {
                    Some(t) => {
                        out.push(t);
                    },
                    None => {
                        proof {
                            assert(T::spec_from_row((rows@[i as int])@) is None);
                            assert(!rows_decodable::<T>(rows@));
                        }
                        return Err(ConnectorError::Decode);
                    },
                }
                i = i + 1;
            }
            proof {
                assert forall|k: int|
                    0 <= k < rows@.len() implies T::spec_from_row(
                    (#[trigger] rows@[k])@,
                ) is Some by {
                    assert(T::spec_from_row(rows@[k]@) == Some(out@[k]));
                }
                assert(rows_decodable::<T>(rows@));
            }
            Ok(out)
        },
        Ok(Reply::Count(_)) => Err(ConnectorError::Decode),
        Ok(Reply::Failure(f)) => Err(ConnectorError::Query(f)),
        Err(e) => Err(e),
    }
}

} // verus!
