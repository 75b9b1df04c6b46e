use crate::common::messages::{
    ClientMessage, ClientMessageView, ProcessInternal, ProcessInternalView, ProcessMessage,
    ProcessMessageView, RoomInternal, RoomInternalView, RoomMessage, RoomMessageView,
    ServerInternal, ServerInternalView, ServerMessage, ServerMessageView, UserInternal,
    UserInternalView, UserMessage, UserMessageView,
};
use crate::common::{RoomName, UserName};
use vstd::prelude::*;

verus! {

/// Where the command router sends what it was given.
#[derive(Debug, PartialEq, Eq)]
pub enum Route {
    /// Hand the command to the user registry.
    ToUsers(UserMessage),
    /// Hand the command to the room registry.
    ToRooms(RoomMessage),
    /// Publish the message on the global broadcast channel.
    Broadcast(ServerMessage),
    /// Nothing is sent: a registry's notice is taken note of, no more.
    Nowhere,
}

/// Mathematical value of a route.
pub ghost enum RouteView {
    ToUsers(UserMessageView),
    ToRooms(RoomMessageView),
    Broadcast(ServerMessageView),
    Nowhere,
}

impl View for Route {
    type V = RouteView;

    open spec fn view(&self) -> RouteView {
        match self {
            Route::ToUsers(command) => RouteView::ToUsers(command@),
            Route::ToRooms(command) => RouteView::ToRooms(command@),
            Route::Broadcast(message) => RouteView::Broadcast(message@),
            Route::Nowhere => RouteView::Nowhere,
        }
    }
}

/// A command for the user registry about `from_user`.
pub open spec fn to_users(from_user: Seq<char>, message: UserInternalView) -> RouteView {
    RouteView::ToUsers(UserMessageView { from_user, message })
}

/// A command of `from_user` for the room registry about `room_name`.
pub open spec fn to_rooms(
    from_user: Seq<char>,
    room_name: Seq<char>,
    message: RoomInternalView,
) -> RouteView {
    RouteView::ToRooms(RoomMessageView { from_user, room_name, message })
}

/// The router's table for what a client sends: which actor gets the request
/// of `from_user`, and in which words. Global chat goes straight to the
/// broadcast channel, with `from_user` as its origin; what concerns users
/// goes to the user registry and what concerns rooms to the room registry.
/// The list of rooms is asked for under the room name `N/A`.
pub open spec fn client_route(from_user: Seq<char>, message: ClientMessageView) -> RouteView {
    match message {
        ClientMessageView::Disconnect => to_users(from_user, UserInternalView::DisconnectUser),
        ClientMessageView::GlobalChatMessage(content) => RouteView::Broadcast(
            ServerMessageView {
                from_user,
                content: ServerInternalView::GlobalChatMessage { from_user, content },
            },
        ),
        ClientMessageView::PrivateMessage { to_user, content } => to_users(
            from_user,
            UserInternalView::PrivateMessage { to_user, content },
        ),
        ClientMessageView::Ping(nonce) => to_users(from_user, UserInternalView::Ping(nonce)),
        ClientMessageView::ListUsers => to_users(from_user, UserInternalView::ListUsers),
        ClientMessageView::CreateRoom(room) => to_rooms(from_user, room, RoomInternalView::NewRoom),
        ClientMessageView::JoinRoom(room) => to_rooms(from_user, room, RoomInternalView::JoinRoom),
        ClientMessageView::LeaveRoom(room) => to_rooms(
            from_user,
            room,
            RoomInternalView::LeaveRoom,
        ),
        ClientMessageView::ListRooms => to_rooms(from_user, "N/A"@, RoomInternalView::ListRooms),
        ClientMessageView::ListRoomUsers(room) => to_rooms(
            from_user,
            room,
            RoomInternalView::ListUsers,
        ),
        ClientMessageView::RoomMessage { room, content } => to_rooms(
            from_user,
            room,
            RoomInternalView::RoomMessage(content),
        ),
    }
}

/// Where a command that is already in the internal vocabulary goes.
pub open spec fn internal_route(command: ProcessInternalView) -> RouteView {
    match command {
        ProcessInternalView::UserMessage(message) => RouteView::ToUsers(message),
        ProcessInternalView::RoomMessage(message) => RouteView::ToRooms(message),
        ProcessInternalView::Response(_) => RouteView::Nowhere,
    }
}

/// The router's rule: a client's request goes by the table, an internal
/// command to its registry, and a message of the server to the broadcast
/// channel as it is.
pub open spec fn route(message: ProcessMessageView) -> RouteView {
    match message {
        ProcessMessageView::Internal(command) => internal_route(command),
        ProcessMessageView::ClientMessage { from_user, message } => client_route(
            from_user,
            message,
        ),
        ProcessMessageView::ServerMessage { from_user, message } => RouteView::Broadcast(message),
    }
}

/// The command router: every request of a client and every internal command
/// passes through it, and it alone puts a client's request into the words
/// that the registries take. It holds no state of its own.
#[derive(Debug)]
pub struct ServerProcessor {}

impl ServerProcessor {
    pub fn new() -> Self {
        ServerProcessor {  }
    }

    /// Routes one message.
    pub fn run(&mut self, message: ProcessMessage) -> (routed: Route)
        ensures
            routed@ == route(message@),
    {
        match message {
            ProcessMessage::Internal(command) => self.handle_internal_message(command),
            ProcessMessage::ClientMessage { from_user, message } => self.handle_client_message(
                from_user,
                message,
            ),
            ProcessMessage::ServerMessage { from_user, message } => self.handle_server_message(
                from_user,
                message,
            ),
        }
    }

    /// Routes a command that is already in the internal vocabulary.
    pub fn handle_internal_message(&mut self, process_internal: ProcessInternal) -> (routed: Route)
        ensures
            routed@ == internal_route(process_internal@),
    {
        match process_internal {
            ProcessInternal::UserMessage(message) => Route::ToUsers(message),
            ProcessInternal::RoomMessage(message) => Route::ToRooms(message),
            ProcessInternal::Response(_) => Route::Nowhere,
        }
    }

    /// Routes the request `message` of the client `from_user`.
    pub fn handle_client_message(&mut self, from_user: UserName, message: ClientMessage) -> (routed:
        Route)
        ensures
            routed@ == client_route(from_user@, message@),
    {
        match message {
            ClientMessage::Disconnect => Route::ToUsers(
                UserMessage { from_user, message: UserInternal::DisconnectUser },
            ),
            ClientMessage::GlobalChatMessage(content) => Route::Broadcast(
                ServerMessage {
                    from_user: from_user.clone(),
                    content: ServerInternal::GlobalChatMessage { from_user, content },
                },
            ),
            ClientMessage::PrivateMessage { to_user, content } => Route::ToUsers(
                UserMessage { from_user, message: UserInternal::PrivateMessage { to_user, content } },
            ),
            ClientMessage::Ping(nonce) => Route::ToUsers(
                UserMessage { from_user, message: UserInternal::Ping(nonce) },
            ),
            ClientMessage::ListUsers => Route::ToUsers(
                UserMessage { from_user, message: UserInternal::ListUsers },
            ),
            ClientMessage::CreateRoom(room) => Route::ToRooms(
                RoomMessage { from_user, room_name: room, message: RoomInternal::NewRoom },
            ),
            ClientMessage::JoinRoom(room) => Route::ToRooms(
                RoomMessage { from_user, room_name: room, message: RoomInternal::JoinRoom },
            ),
            ClientMessage::LeaveRoom(room) => Route::ToRooms(
                RoomMessage { from_user, room_name: room, message: RoomInternal::LeaveRoom },
            ),
            ClientMessage::ListRooms => Route::ToRooms(
                RoomMessage {
                    from_user,
                    room_name: RoomName::new("N/A"),
                    message: RoomInternal::ListRooms,
                },
            ),
            ClientMessage::ListRoomUsers(room) => Route::ToRooms(
                RoomMessage { from_user, room_name: room, message: RoomInternal::ListUsers },
            ),
            ClientMessage::RoomMessage { room, content } => Route::ToRooms(
                RoomMessage {
                    from_user,
                    room_name: room,
                    message: RoomInternal::RoomMessage(content),
                },
            ),
        }
    }

    /// Routes a message of the server: it is published as it is.
    pub fn handle_server_message(&mut self, from_user: UserName, message: ServerMessage) -> (routed:
        Route)
        ensures
            routed@ == RouteView::Broadcast(message@),
    {
        Route::Broadcast(message)
    }
}

} // verus!
