use super::messages::{ServerMessage, ServerMessageView, UserMessage, UserMessageView};
use super::{RoomName, User, UserName, UserView};
use vstd::prelude::*;
use vstd::string::StringExecFns;

verus! {

/// What a registry or a room refuses, and the two ways in which handing a
/// message on can fail.
#[derive(Debug, PartialEq, Eq)]
pub enum CommonError {
    UserExists(UserName),
    UserInRoom(User),
    UserNotExists(UserName),
    UserNotInRoom(User),
    RoomExists(RoomName),
    NoUsersInRoom,
    RoomMessageNotSent,
    RoomNotFound(RoomName),
    SendUserProcess(UserMessage),
    SendUserProcessBroadcast(ServerMessage),
}

/// Mathematical value of an error.
pub ghost enum CommonErrorView {
    UserExists(Seq<char>),
    UserInRoom(UserView),
    UserNotExists(Seq<char>),
    UserNotInRoom(UserView),
    RoomExists(Seq<char>),
    NoUsersInRoom,
    RoomMessageNotSent,
    RoomNotFound(Seq<char>),
    SendUserProcess(UserMessageView),
    SendUserProcessBroadcast(ServerMessageView),
}

impl CommonErrorView {
    /// The notice that tells a user of the error.
    pub open spec fn text(self) -> Seq<char> {
        match self {
            CommonErrorView::UserExists(name) => "User already exists: "@ + name,
            CommonErrorView::UserInRoom(user) => "User is already in the room: "@ + user.name,
            CommonErrorView::UserNotExists(name) => "User not found: "@ + name,
            CommonErrorView::UserNotInRoom(user) => "User is not in the room: "@ + user.name,
            CommonErrorView::RoomExists(room) => "Room already exists: "@ + room,
            CommonErrorView::NoUsersInRoom => "No users in the room"@,
            CommonErrorView::RoomMessageNotSent => "Room message could not be sent to every user"@,
            CommonErrorView::RoomNotFound(room) => "Room not found: "@ + room,
            CommonErrorView::SendUserProcess(_) => "User registry is unreachable"@,
            CommonErrorView::SendUserProcessBroadcast(_) => "Mailbox is unreachable"@,
        }
    }
}

impl View for CommonError {
    type V = CommonErrorView;

    open spec fn view(&self) -> CommonErrorView {
        match self {
            CommonError::UserExists(name) => CommonErrorView::UserExists(name@),
            CommonError::UserInRoom(user) => CommonErrorView::UserInRoom(user@),
            CommonError::UserNotExists(name) => CommonErrorView::UserNotExists(name@),
            CommonError::UserNotInRoom(user) => CommonErrorView::UserNotInRoom(user@),
            CommonError::RoomExists(room) => CommonErrorView::RoomExists(room@),
            CommonError::NoUsersInRoom => CommonErrorView::NoUsersInRoom,
            CommonError::RoomMessageNotSent => CommonErrorView::RoomMessageNotSent,
            CommonError::RoomNotFound(room) => CommonErrorView::RoomNotFound(room@),
            CommonError::SendUserProcess(message) => CommonErrorView::SendUserProcess(message@),
            CommonError::SendUserProcessBroadcast(message) => {
                CommonErrorView::SendUserProcessBroadcast(message@)
            },
        }
    }
}

impl Clone for CommonError {
    fn clone(&self) -> (copy: Self)
        ensures
            copy@ == self@,
    {
        match self {
            CommonError::UserExists(name) => CommonError::UserExists(name.clone()),
            CommonError::UserInRoom(user) => CommonError::UserInRoom(user.clone()),
            CommonError::UserNotExists(name) => CommonError::UserNotExists(name.clone()),
            CommonError::UserNotInRoom(user) => CommonError::UserNotInRoom(user.clone()),
            CommonError::RoomExists(room) => CommonError::RoomExists(room.clone()),
            CommonError::NoUsersInRoom => CommonError::NoUsersInRoom,
            CommonError::RoomMessageNotSent => CommonError::RoomMessageNotSent,
            CommonError::RoomNotFound(room) => CommonError::RoomNotFound(room.clone()),
            CommonError::SendUserProcess(message) => CommonError::SendUserProcess(message.clone()),
            CommonError::SendUserProcessBroadcast(message) => {
                CommonError::SendUserProcessBroadcast(message.clone())
            },
        }
    }
}

/// `prefix` followed by `rest`.
pub(crate) fn joined(prefix: &str, rest: &str) -> (text: String)
    ensures
        text@ == prefix@ + rest@,
{
    let mut text = String::from_str(prefix);
    text.append(rest);
    text
}

impl CommonError {
    /// The notice that tells a user of the error.
    pub fn to_string(&self) -> (text: String)
        ensures
            text@ == self@.text(),
    {
        match self {
            CommonError::UserExists(name) => joined("User already exists: ", name.user_name()),
            CommonError::UserInRoom(user) => joined(
                "User is already in the room: ",
                user.user_name().user_name(),
            ),
            CommonError::UserNotExists(name) => joined("User not found: ", name.user_name()),
            CommonError::UserNotInRoom(user) => joined(
                "User is not in the room: ",
                user.user_name().user_name(),
            ),
            CommonError::RoomExists(room) => joined("Room already exists: ", room.room_name()),
            CommonError::NoUsersInRoom => String::from_str("No users in the room"),
            CommonError::RoomMessageNotSent => String::from_str(
                "Room message could not be sent to every user",
            ),
            CommonError::RoomNotFound(room) => joined("Room not found: ", room.room_name()),
            CommonError::SendUserProcess(_) => String::from_str("User registry is unreachable"),
            CommonError::SendUserProcessBroadcast(_) => String::from_str("Mailbox is unreachable"),
        }
    }
}

} // verus!
