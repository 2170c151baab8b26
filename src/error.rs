use vstd::prelude::*;

verus! {

/// The errors of the driver. Errors raised by the transport, the server or
/// the pool carry their message; the protocol errors are raised here.
#[derive(Debug, Clone, PartialEq, Eq)]
pub enum DgraphError {
    Transport(String),
    Status(String),
    Pool(String),
    Transaction(String),
    InvalidArgument(String),
    PoolRunError(String),
}

impl DgraphError {
    /// Whether this is an `InvalidArgument` error with message `m`.
    pub open spec fn is_invalid_argument(&self, m: Seq<char>) -> bool {
        match self {
            DgraphError::InvalidArgument(s) => s@ == m,
            _ => false,
        }
    }

    /// Whether this is a `Transaction` error with message `m`.
    pub open spec fn is_transaction(&self, m: Seq<char>) -> bool {
        match self {
            DgraphError::Transaction(s) => s@ == m,
            _ => false,
        }
    }

    /// Whether this is a `Transport` error with message `m`.
    pub open spec fn is_transport(&self, m: Seq<char>) -> bool {
        match self {
            DgraphError::Transport(s) => s@ == m,
            _ => false,
        }
    }
}

} // verus!
