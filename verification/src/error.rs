//! The caller-facing error taxonomy of the database-execution bridge, and
//! the service-level error type wrapped around it.
//!
//! Two independent failure domains are unified into one sum type:
//! transport failures (the dispatcher or a worker is unreachable) and
//! database failures (the driver reported an error). Callers branch on the
//! variant: a transport failure is retryable, a driver failure usually is
//! not, and `NotFound` is a valid outcome rather than a bridge failure.

use vstd::prelude::*;

verus! {

/// An opaque failure reported by the database driver for one statement,
/// carrying the driver's message and whether the connection itself was
/// lost (the one failure class the worker policy must distinguish).
#[derive(Clone, Debug)]
pub struct QueryFailure {
    pub message: String,
    pub connection_lost: bool,
}

/// Everything a bridge call can return instead of a value.
#[derive(Clone, Debug)]
pub enum ConnectorError {
    /// The dispatcher or the worker serving the call is unreachable, or the
    /// reply conduit closed before a reply arrived. Retryable transport
    /// failure.
    Dispatch,
    /// The database driver reported a failure for the statement.
    Query(QueryFailure),
    /// A single-row fetch matched zero rows. A valid outcome, not a bridge
    /// failure; kept in the sum type so callers can branch on it.
    NotFound,
    /// A row did not match the decoder's expected shape: a caller or schema
    /// bug, not retryable.
    Decode,
    /// The dispatcher's bounded queue is full; the caller should back off.
    Saturation,
    /// The caller-side deadline passed before the reply arrived. The worker
    /// still completes the call; its reply is discarded.
    Timeout,
}

impl ConnectorError {
    /// A short stable label for the error class, for logs and messages.
    pub fn class_name(&self) -> (r: &'static str)
        ensures
            r@ == self.spec_class_name(),
    {
        match self {
            ConnectorError::Dispatch => "dispatch error",
            ConnectorError::Query(_) => "query error",
            ConnectorError::NotFound => "not found",
            ConnectorError::Decode => "decode error",
            ConnectorError::Saturation => "saturated",
            ConnectorError::Timeout => "timeout",
        }
    }

    pub open spec fn spec_class_name(&self) -> Seq<char> {
        match self {
            ConnectorError::Dispatch => "dispatch error"@,
            ConnectorError::Query(_) => "query error"@,
            ConnectorError::NotFound => "not found"@,
            ConnectorError::Decode => "decode error"@,
            ConnectorError::Saturation => "saturated"@,
            ConnectorError::Timeout => "timeout"@,
        }
    }
}

/// Service-level errors surfaced by the account and login operations.
#[derive(Debug)]
pub enum ServiceError {
    /// A bridge call failed.
    DBError(ConnectorError),
    /// A request body could not be parsed.
    ParseError(String),
    /// Any other failure, described by a message.
    GeneralError(String),
    /// The caller is not authenticated or lacks the required role.
    Unauthorized(String),
    /// A bad request from the client, wrapping the underlying failure.
    InvalidRequest(Box<ServiceError>),
    /// An internal failure, wrapping the underlying cause.
    InternalServerError(Box<ServiceError>),
}

impl ServiceError {
    /// The HTTP status code this error maps to at the web boundary.
    pub fn http_status(&self) -> (r: u16)
        ensures
            r == self.spec_http_status(),
    {
        match self {
            ServiceError::InvalidRequest(_) => 400,
            ServiceError::Unauthorized(_) => 401,
            ServiceError::InternalServerError(_) => 500,
            _ => 500,
        }
    }

    pub open spec fn spec_http_status(&self) -> u16 {
        match self {
            ServiceError::InvalidRequest(_) => 400u16,
            ServiceError::Unauthorized(_) => 401u16,
            _ => 500u16,
        }
    }
}

} // verus!
