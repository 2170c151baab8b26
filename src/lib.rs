//! Client-side transaction protocol for a graph database driver: the
//! request and context values exchanged with the server, the endpoint list
//! of a connection pool, and the state machine of a multi-round-trip
//! transaction with its finalize-once rules.
pub mod api;
pub mod client;
pub mod error;
pub mod laws;
pub mod pool;
pub mod transaction;

pub use api::{Latency, Metrics, Mutation, NQuad, Request, Response, TxnContext};
pub use client::{Client, EndpointAddresses};
pub use error::DgraphError;
pub use pool::DgraphConnectionManager;
pub use transaction::Transaction;
