use crate::connection::ConnectionError;
use vstd::prelude::*;
use vstd::std_specs::convert::FromSpecImpl;

verus! {

/// How the client side fails.
#[derive(Debug, Clone, Copy, PartialEq, Eq, Hash, Structural)]
pub enum ClientError {
    Connection(ConnectionError),
    Io,
    InvalidCommand,
}

/// Mathematical value of a client error: the error itself.
pub type ClientErrorView = ClientError;

impl From<ConnectionError> for ClientError {
    fn from(error: ConnectionError) -> (wrapped: Self)
        ensures
            wrapped == ClientError::Connection(error),
    {
        ClientError::Connection(error)
    }
}

impl FromSpecImpl<ConnectionError> for ClientError {
    open spec fn obeys_from_spec() -> bool {
        true
    }

    open spec fn from_spec(error: ConnectionError) -> Self {
        ClientError::Connection(error)
    }
}

} // verus!
