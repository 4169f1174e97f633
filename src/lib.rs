//! Request-execution core of an HTTP client: the decisions that drive one
//! exchange (policy checks, header finalization, connection hand-off,
//! redirect hops, error-status policy), the connection pool bookkeeping and
//! the cookie jar, each with a verified contract.

pub mod uri;
pub mod header;
pub mod config;
pub mod cookie;
pub mod pool;
pub mod engine;
pub mod trace;
pub mod agent;
