use crate::client::ClientError;
use crate::common::{CommonError, CommonErrorView};
use crate::connection::ConnectionError;
use crate::server::{ServerError, ServerErrorView};
use vstd::prelude::*;
use vstd::std_specs::convert::FromSpecImpl;

verus! {

/// Every way in which the program fails, by the part that failed.
#[derive(Debug, PartialEq, Eq)]
pub enum Error {
    Io,
    Connection(ConnectionError),
    Common(CommonError),
    Server(ServerError),
    Client(ClientError),
}

/// Mathematical value of an error.
pub ghost enum ErrorView {
    Io,
    Connection(ConnectionError),
    Common(CommonErrorView),
    Server(ServerErrorView),
    Client(ClientError),
}

impl View for Error {
    type V = ErrorView;

    open spec fn view(&self) -> ErrorView {
        match self {
            Error::Io => ErrorView::Io,
            Error::Connection(e) => ErrorView::Connection(*e),
            Error::Common(e) => ErrorView::Common(e@),
            Error::Server(e) => ErrorView::Server(e@),
            Error::Client(e) => ErrorView::Client(*e),
        }
    }
}

impl From<ConnectionError> for Error {
    fn from(error: ConnectionError) -> (wrapped: Self)
        ensures
            wrapped == Error::Connection(error),
    {
        Error::Connection(error)
    }
}

impl FromSpecImpl<ConnectionError> for Error {
    open spec fn obeys_from_spec() -> bool {
        true
    }

    open spec fn from_spec(error: ConnectionError) -> Self {
        Error::Connection(error)
    }
}

impl From<CommonError> for Error {
    fn from(error: CommonError) -> (wrapped: Self)
        ensures
            wrapped == Error::Common(error),
    {
        Error::Common(error)
    }
}

impl FromSpecImpl<CommonError> for Error {
    open spec fn obeys_from_spec() -> bool {
        true
    }

    open spec fn from_spec(error: CommonError) -> Self {
        Error::Common(error)
    }
}

impl From<ServerError> for Error {
    fn from(error: ServerError) -> (wrapped: Self)
        ensures
            wrapped == Error::Server(error),
    {
        Error::Server(error)
    }
}

impl FromSpecImpl<ServerError> for Error {
    open spec fn obeys_from_spec() -> bool {
        true
    }

    open spec fn from_spec(error: ServerError) -> Self {
        Error::Server(error)
    }
}

impl From<ClientError> for Error {
    fn from(error: ClientError) -> (wrapped: Self)
        ensures
            wrapped == Error::Client(error),
    {
        Error::Client(error)
    }
}

impl FromSpecImpl<ClientError> for Error {
    open spec fn obeys_from_spec() -> bool {
        true
    }

    open spec fn from_spec(error: ClientError) -> Self {
        Error::Client(error)
    }
}

} // verus!
