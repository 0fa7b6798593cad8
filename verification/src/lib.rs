//! A user-account service library built around an asynchronous
//! database-execution bridge: a fixed pool of workers, each bound to one
//! blocking database connection, lets callers issue typed queries without
//! blocking their own execution context. Dispatch failures and database
//! failures are unified into one caller-facing error type.
//!
//! The bridge itself (dispatcher, workers, reply conduits, connection pool)
//! is modelled and verified here as a state machine; the surrounding
//! runtime (threads, sockets, the real database driver) lives outside the
//! library and drives these functions.

pub mod authorize;
pub mod conduit;
pub mod connector;
pub mod dispatch;
pub mod error;
pub mod hashing;
pub mod model;
pub mod pool;
pub mod query;
pub mod records;
pub mod services;
pub mod table;
pub mod text;
