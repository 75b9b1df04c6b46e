use super::{
    ClientMessage, ClientMessageView, RoomMessage, RoomMessageView, ServerMessage,
    ServerMessageView, UserMessage, UserMessageView,
};
use crate::common::{Mailbox, UserName};
use vstd::prelude::*;

verus! {

/// What reaches the command router: a request of a client, a message of the
/// server to publish, or a command that is already in the internal vocabulary.
#[derive(Debug, PartialEq, Eq)]
#[allow(inconsistent_fields)]
pub enum ProcessMessage {
    ClientMessage { from_user: UserName, message: ClientMessage },
    ServerMessage { from_user: UserName, message: ServerMessage },
    Internal(ProcessInternal),
}

/// A command in the internal vocabulary.
#[derive(Debug, PartialEq, Eq)]
pub enum ProcessInternal {
    UserMessage(UserMessage),
    RoomMessage(RoomMessage),
    Response(ProcessResponse),
}

/// A notice about something a registry has done.
#[derive(Debug, PartialEq, Eq)]
pub enum ProcessResponse {
    UserCreated { username: UserName, user_rx: Mailbox },
}

/// Mathematical value of a registry's notice.
pub ghost enum ProcessResponseView {
    UserCreated { username: Seq<char>, user_rx: Mailbox },
}

/// Mathematical value of an internal command.
pub ghost enum ProcessInternalView {
    UserMessage(UserMessageView),
    RoomMessage(RoomMessageView),
    Response(ProcessResponseView),
}

/// Mathematical value of what reaches the command router.
#[allow(inconsistent_fields)]
pub ghost enum ProcessMessageView {
    ClientMessage { from_user: Seq<char>, message: ClientMessageView },
    ServerMessage { from_user: Seq<char>, message: ServerMessageView },
    Internal(ProcessInternalView),
}

impl View for ProcessResponse {
    type V = ProcessResponseView;

    open spec fn view(&self) -> ProcessResponseView {
        match self {
            ProcessResponse::UserCreated { username, user_rx } => ProcessResponseView::UserCreated {
                username: username@,
                user_rx: *user_rx,
            },
        }
    }
}

impl View for ProcessInternal {
    type V = ProcessInternalView;

    open spec fn view(&self) -> ProcessInternalView {
        match self {
            ProcessInternal::UserMessage(message) => ProcessInternalView::UserMessage(message@),
            ProcessInternal::RoomMessage(message) => ProcessInternalView::RoomMessage(message@),
            ProcessInternal::Response(response) => ProcessInternalView::Response(response@),
        }
    }
}

impl View for ProcessMessage {
    type V = ProcessMessageView;

    open spec fn view(&self) -> ProcessMessageView {
        match self {
            ProcessMessage::ClientMessage { from_user, message } => {
                ProcessMessageView::ClientMessage { from_user: from_user@, message: message@ }
            },
            ProcessMessage::ServerMessage { from_user, message } => {
                ProcessMessageView::ServerMessage { from_user: from_user@, message: message@ }
            },
            ProcessMessage::Internal(internal) => ProcessMessageView::Internal(internal@),
        }
    }
}

} // verus!
