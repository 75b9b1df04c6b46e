use crate::common::{RoomName, UserName};
use vstd::prelude::*;

verus! {

/// A command for the room registry or for one room, with the user who sent it.
#[derive(Debug, PartialEq, Eq)]
pub struct RoomMessage {
    pub from_user: UserName,
    pub room_name: RoomName,
    pub message: RoomInternal,
}

/// What a room command asks for.
#[derive(Debug, PartialEq, Eq)]
pub enum RoomInternal {
    NewRoom,
    JoinRoom,
    LeaveRoom,
    ListRooms,
    ListUsers,
    RoomMessage(String),
}

/// Mathematical value of what a room command asks for.
pub ghost enum RoomInternalView {
    NewRoom,
    JoinRoom,
    LeaveRoom,
    ListRooms,
    ListUsers,
    RoomMessage(Seq<char>),
}

/// Mathematical value of a room command.
pub ghost struct RoomMessageView {
    pub from_user: Seq<char>,
    pub room_name: Seq<char>,
    pub message: RoomInternalView,
}

impl View for RoomInternal {
    type V = RoomInternalView;

    open spec fn view(&self) -> RoomInternalView {
        match self {
            RoomInternal::NewRoom => RoomInternalView::NewRoom,
            RoomInternal::JoinRoom => RoomInternalView::JoinRoom,
            RoomInternal::LeaveRoom => RoomInternalView::LeaveRoom,
            RoomInternal::ListRooms => RoomInternalView::ListRooms,
            RoomInternal::ListUsers => RoomInternalView::ListUsers,
            RoomInternal::RoomMessage(content) => RoomInternalView::RoomMessage(content@),
        }
    }
}

impl Clone for RoomInternal {
    fn clone(&self) -> (copy: Self)
        ensures
            copy@ == self@,
    {
        match self {
            RoomInternal::NewRoom => RoomInternal::NewRoom,
            RoomInternal::JoinRoom => RoomInternal::JoinRoom,
            RoomInternal::LeaveRoom => RoomInternal::LeaveRoom,
            RoomInternal::ListRooms => RoomInternal::ListRooms,
            RoomInternal::ListUsers => RoomInternal::ListUsers,
            RoomInternal::RoomMessage(content) => RoomInternal::RoomMessage(content.clone()),
        }
    }
}

impl View for RoomMessage {
    type V = RoomMessageView;

    open spec fn view(&self) -> RoomMessageView {
        RoomMessageView {
            from_user: self.from_user@,
            room_name: self.room_name@,
            message: self.message@,
        }
    }
}

impl Clone for RoomMessage {
    fn clone(&self) -> (copy: Self)
        ensures
            copy@ == self@,
    {
        RoomMessage {
            from_user: self.from_user.clone(),
            room_name: self.room_name.clone(),
            message: self.message.clone(),
        }
    }
}

} // verus!
