use crate::common::messages::{
    ProcessMessage, ProcessMessageView, RoomMessage, RoomMessageView, ServerMessage,
    ServerMessageView, UserMessage, UserMessageView,
};
use crate::common::{CommonError, CommonErrorView, UserName};
use crate::connection::ConnectionError;
use vstd::prelude::*;
use vstd::std_specs::convert::FromSpecImpl;

verus! {

/// How the server side of a session, or one of the actors, fails. The
/// variants that say that a channel is closed hold the message that could
/// not be handed on.
#[derive(Debug, PartialEq, Eq)]
pub enum ServerError {
    Connection(ConnectionError),
    Io,
    GetUserBroadcastFailed,
    ServerBroadcastFailed(ServerMessage),
    ClientBroadcastFailed(ProcessMessage),
    OutputBroadcastFailed(ServerMessage),
    UserBroadcastFailed(UserMessage),
    RoomBroadcastFailed(RoomMessage),
    Common(CommonError),
    InvalidHandshake,
    HandshakeTimeout,
    UserNotFound(UserName),
}

/// Mathematical value of a server error.
pub ghost enum ServerErrorView {
    Connection(ConnectionError),
    Io,
    GetUserBroadcastFailed,
    ServerBroadcastFailed(ServerMessageView),
    ClientBroadcastFailed(ProcessMessageView),
    OutputBroadcastFailed(ServerMessageView),
    UserBroadcastFailed(UserMessageView),
    RoomBroadcastFailed(RoomMessageView),
    Common(CommonErrorView),
    InvalidHandshake,
    HandshakeTimeout,
    UserNotFound(Seq<char>),
}

impl View for ServerError {
    type V = ServerErrorView;

    open spec fn view(&self) -> ServerErrorView {
        match self {
            ServerError::Connection(e) => ServerErrorView::Connection(*e),
            ServerError::Io => ServerErrorView::Io,
            ServerError::GetUserBroadcastFailed => ServerErrorView::GetUserBroadcastFailed,
            ServerError::ServerBroadcastFailed(m) => ServerErrorView::ServerBroadcastFailed(m@),
            ServerError::ClientBroadcastFailed(m) => ServerErrorView::ClientBroadcastFailed(m@),
            ServerError::OutputBroadcastFailed(m) => ServerErrorView::OutputBroadcastFailed(m@),
            ServerError::UserBroadcastFailed(m) => ServerErrorView::UserBroadcastFailed(m@),
            ServerError::RoomBroadcastFailed(m) => ServerErrorView::RoomBroadcastFailed(m@),
            ServerError::Common(e) => ServerErrorView::Common(e@),
            ServerError::InvalidHandshake => ServerErrorView::InvalidHandshake,
            ServerError::HandshakeTimeout => ServerErrorView::HandshakeTimeout,
            ServerError::UserNotFound(name) => ServerErrorView::UserNotFound(name@),
        }
    }
}

impl From<ConnectionError> for ServerError {
    fn from(error: ConnectionError) -> (wrapped: Self)
        ensures
            wrapped == ServerError::Connection(error),
    {
        ServerError::Connection(error)
    }
}

impl FromSpecImpl<ConnectionError> for ServerError {
    open spec fn obeys_from_spec() -> bool {
        true
    }

    open spec fn from_spec(error: ConnectionError) -> Self {
        ServerError::Connection(error)
    }
}

impl From<CommonError> for ServerError {
    fn from(error: CommonError) -> (wrapped: Self)
        ensures
            wrapped == ServerError::Common(error),
    {
        ServerError::Common(error)
    }
}

impl FromSpecImpl<CommonError> for ServerError {
    open spec fn obeys_from_spec() -> bool {
        true
    }

    open spec fn from_spec(error: CommonError) -> Self {
        ServerError::Common(error)
    }
}

} // verus!
