use chat_app::common::messages::{
    ClientMessage, ProcessInternal, ProcessMessage, ProcessResponse, RoomInternal, RoomMessage,
    ServerInternal, ServerMessage, UserInternal, UserMessage,
};
use chat_app::common::Mailbox;
use chat_app::server::{Route, ServerProcessor};
use chat_app::{RoomName, UserName};

fn from_client(message: ClientMessage) -> Route {
    ServerProcessor::new().run(ProcessMessage::ClientMessage {
        from_user: UserName::new("alice"),
        message,
    })
}

fn to_users(message: UserInternal) -> Route {
    Route::ToUsers(UserMessage { from_user: UserName::new("alice"), message })
}

fn to_rooms(room: &str, message: RoomInternal) -> Route {
    Route::ToRooms(RoomMessage {
        from_user: UserName::new("alice"),
        room_name: RoomName::new(room),
        message,
    })
}

#[test]
fn global_chat_is_published_with_its_sender_as_origin() {
    assert_eq!(
        from_client(ClientMessage::GlobalChatMessage("hi".to_string())),
        Route::Broadcast(ServerMessage {
            from_user: UserName::new("alice"),
            content: ServerInternal::GlobalChatMessage {
                from_user: UserName::new("alice"),
                content: "hi".to_string()
            },
        })
    );
}

#[test]
fn user_requests_go_to_the_user_registry() {
    assert_eq!(from_client(ClientMessage::Disconnect), to_users(UserInternal::DisconnectUser));
    assert_eq!(from_client(ClientMessage::Ping(77)), to_users(UserInternal::Ping(77)));
    assert_eq!(from_client(ClientMessage::ListUsers), to_users(UserInternal::ListUsers));
    assert_eq!(
        from_client(ClientMessage::PrivateMessage {
            to_user: UserName::new("bob"),
            content: "x".to_string()
        }),
        to_users(UserInternal::PrivateMessage {
            to_user: UserName::new("bob"),
            content: "x".to_string()
        })
    );
}

#[test]
fn room_requests_go_to_the_room_registry() {
    assert_eq!(
        from_client(ClientMessage::CreateRoom(RoomName::new("lobby"))),
        to_rooms("lobby", RoomInternal::NewRoom)
    );
    assert_eq!(
        from_client(ClientMessage::JoinRoom(RoomName::new("lobby"))),
        to_rooms("lobby", RoomInternal::JoinRoom)
    );
    assert_eq!(
        from_client(ClientMessage::LeaveRoom(RoomName::new("lobby"))),
        to_rooms("lobby", RoomInternal::LeaveRoom)
    );
    assert_eq!(from_client(ClientMessage::ListRooms), to_rooms("N/A", RoomInternal::ListRooms));
    assert_eq!(
        from_client(ClientMessage::ListRoomUsers(RoomName::new("lobby"))),
        to_rooms("lobby", RoomInternal::ListUsers)
    );
    assert_eq!(
        from_client(ClientMessage::RoomMessage {
            room: RoomName::new("lobby"),
            content: "hey".to_string()
        }),
        to_rooms("lobby", RoomInternal::RoomMessage("hey".to_string()))
    );
}

#[test]
fn internal_commands_go_to_their_registry() {
    let mut router = ServerProcessor::new();
    let command = UserMessage { from_user: UserName::new("bob"), message: UserInternal::NewUser };
    assert_eq!(
        router.run(ProcessMessage::Internal(ProcessInternal::UserMessage(command.clone()))),
        Route::ToUsers(command)
    );
    let command = RoomMessage {
        from_user: UserName::new("bob"),
        room_name: RoomName::new("lobby"),
        message: RoomInternal::JoinRoom,
    };
    assert_eq!(
        router.handle_internal_message(ProcessInternal::RoomMessage(command.clone())),
        Route::ToRooms(command)
    );
    assert_eq!(
        router.run(ProcessMessage::Internal(ProcessInternal::Response(
            ProcessResponse::UserCreated {
                username: UserName::new("bob"),
                user_rx: Mailbox { id: 3 }
            }
        ))),
        Route::Nowhere
    );
}

#[test]
fn server_messages_are_published_as_they_are() {
    let message = ServerMessage {
        from_user: UserName::new("carol"),
        content: ServerInternal::UserJoined(UserName::new("carol")),
    };
    assert_eq!(
        ServerProcessor::new().run(ProcessMessage::ServerMessage {
            from_user: UserName::new("alice"),
            message: message.clone()
        }),
        Route::Broadcast(message.clone())
    );
    assert_eq!(
        ServerProcessor::new().handle_server_message(UserName::new("alice"), message.clone()),
        Route::Broadcast(message)
    );
}
