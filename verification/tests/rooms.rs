use chat_app::common::messages::{RoomInternal, RoomMessage, ServerInternal, ServerMessage};
use chat_app::common::{CommonError, Delivery, Mailbox, User};
use chat_app::server::{RoomAction, RoomProcessor};
use chat_app::{RoomManager, RoomName, UserName};

fn user(name: &str, id: u64) -> User {
    User::new(UserName::new(name), Mailbox { id })
}

fn command(from: &str, room: &str, message: RoomInternal) -> RoomMessage {
    RoomMessage { from_user: UserName::new(from), room_name: RoomName::new(room), message }
}

fn room_message(to: u64, room: &str, from: &str, content: &str) -> Delivery {
    Delivery {
        to: Mailbox { id: to },
        message: ServerMessage {
            from_user: UserName::new(from),
            content: ServerInternal::RoomMessage {
                room: RoomName::new(room),
                from: UserName::new(from),
                content: content.to_string(),
            },
        },
    }
}

fn error(to: u64, from: &str, text: &str) -> Delivery {
    Delivery {
        to: Mailbox { id: to },
        message: ServerMessage {
            from_user: UserName::new(from),
            content: ServerInternal::Error(text.to_string()),
        },
    }
}

fn notify(user: &str, content: ServerInternal) -> RoomAction {
    RoomAction::Notify {
        user: UserName::new(user),
        message: ServerMessage { from_user: UserName::new(user), content },
    }
}

#[test]
fn join_tells_every_member_the_joiner_too() {
    let mut room = RoomManager::new(RoomName::new("lobby"));
    assert!(!room.users_in_room());
    let sent = room.run(command("alice", "lobby", RoomInternal::JoinRoom), Ok(user("alice", 1)));
    assert_eq!(sent, Ok(vec![room_message(1, "lobby", "alice", "alice joined the room")]));
    let sent = room.run(command("bob", "lobby", RoomInternal::JoinRoom), Ok(user("bob", 2)));
    assert_eq!(
        sent,
        Ok(vec![
            room_message(1, "lobby", "bob", "bob joined the room"),
            room_message(2, "lobby", "bob", "bob joined the room")
        ])
    );
    assert!(room.users_in_room());
    assert_eq!(room.room_name(), &RoomName::new("lobby"));
    assert_eq!(room.list_users(), vec![UserName::new("alice"), UserName::new("bob")]);
}

#[test]
fn joining_twice_is_user_in_room() {
    let mut room = RoomManager::new(RoomName::new("lobby"));
    room.run(command("alice", "lobby", RoomInternal::JoinRoom), Ok(user("alice", 1))).unwrap();
    let sent = room.run(command("alice", "lobby", RoomInternal::JoinRoom), Ok(user("alice", 1)));
    assert_eq!(sent, Ok(vec![error(1, "alice", "User is already in the room: alice")]));
    assert_eq!(room.list_users(), vec![UserName::new("alice")]);
    assert_eq!(room.add_user(user("alice", 5)), Err(CommonError::UserInRoom(user("alice", 5))));
}

#[test]
fn join_of_unknown_user_fails_with_the_registry_error() {
    let mut room = RoomManager::new(RoomName::new("lobby"));
    let unknown = CommonError::UserNotExists(UserName::new("ghost"));
    for message in [RoomInternal::JoinRoom, RoomInternal::LeaveRoom, RoomInternal::ListUsers] {
        let sent = room.run(command("ghost", "lobby", message), Err(unknown.clone()));
        assert_eq!(sent, Err(CommonError::UserNotExists(UserName::new("ghost"))));
    }
    assert!(!room.users_in_room());
}

#[test]
fn leave_tells_the_members_that_remain() {
    let mut room = RoomManager::new(RoomName::new("lobby"));
    room.run(command("alice", "lobby", RoomInternal::JoinRoom), Ok(user("alice", 1))).unwrap();
    room.run(command("bob", "lobby", RoomInternal::JoinRoom), Ok(user("bob", 2))).unwrap();
    let sent = room.run(command("alice", "lobby", RoomInternal::LeaveRoom), Ok(user("alice", 1)));
    assert_eq!(sent, Ok(vec![room_message(2, "lobby", "alice", "alice left the room")]));
    assert_eq!(room.list_users(), vec![UserName::new("bob")]);
    let sent = room.run(command("bob", "lobby", RoomInternal::LeaveRoom), Ok(user("bob", 2)));
    assert_eq!(sent, Ok(vec![]));
    assert!(!room.users_in_room());
}

#[test]
fn leaving_a_room_one_is_not_in_is_user_not_in_room() {
    let mut room = RoomManager::new(RoomName::new("lobby"));
    room.run(command("alice", "lobby", RoomInternal::JoinRoom), Ok(user("alice", 1))).unwrap();
    let sent = room.run(command("bob", "lobby", RoomInternal::LeaveRoom), Ok(user("bob", 2)));
    assert_eq!(sent, Ok(vec![error(2, "bob", "User is not in the room: bob")]));
    assert_eq!(room.remove_user(&user("bob", 2)), Err(CommonError::UserNotInRoom(user("bob", 2))));
    assert_eq!(room.list_users(), vec![UserName::new("alice")]);
}

#[test]
fn room_message_goes_to_members_and_nobody_else() {
    let mut room = RoomManager::new(RoomName::new("lobby"));
    room.run(command("alice", "lobby", RoomInternal::JoinRoom), Ok(user("alice", 1))).unwrap();
    room.run(command("bob", "lobby", RoomInternal::JoinRoom), Ok(user("bob", 2))).unwrap();
    let sent = room.run(
        command("alice", "lobby", RoomInternal::RoomMessage("hello".to_string())),
        Ok(user("alice", 1)),
    );
    assert_eq!(
        sent,
        Ok(vec![
            room_message(1, "lobby", "alice", "hello"),
            room_message(2, "lobby", "alice", "hello")
        ])
    );
    let outsider = room.run(
        command("carol", "lobby", RoomInternal::RoomMessage("knock".to_string())),
        Ok(user("carol", 3)),
    );
    let deliveries = outsider.unwrap();
    assert_eq!(deliveries.len(), 2);
    assert!(deliveries.iter().all(|d| d.to != Mailbox { id: 3 }));
}

#[test]
fn room_message_to_an_empty_room_is_no_users_in_room() {
    let mut room = RoomManager::new(RoomName::new("lobby"));
    assert_eq!(
        room.send_room_message(&UserName::new("alice"), "anyone?"),
        Err(CommonError::NoUsersInRoom)
    );
    let sent = room.run(
        command("alice", "lobby", RoomInternal::RoomMessage("anyone?".to_string())),
        Ok(user("alice", 1)),
    );
    assert_eq!(sent, Ok(vec![error(1, "alice", "No users in the room")]));
    let sent = room.run(
        command("ghost", "lobby", RoomInternal::RoomMessage("anyone?".to_string())),
        Err(CommonError::UserNotExists(UserName::new("ghost"))),
    );
    assert_eq!(sent, Ok(vec![]));
}

#[test]
fn failed_deliveries_are_reported_as_room_message_not_sent() {
    let requester = Ok(user("alice", 1));
    assert_eq!(RoomManager::report(UserName::new("alice"), &requester, 0), vec![]);
    assert_eq!(
        RoomManager::report(UserName::new("alice"), &requester, 2),
        vec![error(1, "alice", "Room message could not be sent to every user")]
    );
    let unknown = Err(CommonError::UserNotExists(UserName::new("alice")));
    assert_eq!(RoomManager::report(UserName::new("alice"), &unknown, 2), vec![]);
}

#[test]
fn room_ignores_the_commands_of_the_registry() {
    let mut room = RoomManager::new(RoomName::new("lobby"));
    let unknown = CommonError::UserNotExists(UserName::new("alice"));
    assert!(!RoomManager::needs_requester(&RoomInternal::NewRoom));
    assert!(!RoomManager::needs_requester(&RoomInternal::ListRooms));
    assert!(RoomManager::needs_requester(&RoomInternal::JoinRoom));
    assert!(RoomManager::needs_requester(&RoomInternal::RoomMessage(String::new())));
    assert_eq!(
        room.run(command("alice", "lobby", RoomInternal::NewRoom), Err(unknown.clone())),
        Ok(vec![])
    );
    assert_eq!(room.run(command("alice", "lobby", RoomInternal::ListRooms), Err(unknown)), Ok(vec![]));
}

#[test]
fn list_room_users_before_joining_returns_the_members() {
    let mut registry = RoomProcessor::new();
    let actions = registry.run(command("alice", "lobby", RoomInternal::NewRoom));
    assert_eq!(actions[0], RoomAction::Spawn(RoomName::new("lobby")));
    let mut room = RoomManager::new(RoomName::new("lobby"));

    let join = command("alice", "lobby", RoomInternal::JoinRoom);
    assert_eq!(registry.run(join.clone()), vec![RoomAction::Forward(join.clone())]);
    room.run(join, Ok(user("alice", 0))).unwrap();

    let list = command("bob", "lobby", RoomInternal::ListUsers);
    assert_eq!(registry.run(list.clone()), vec![RoomAction::Forward(list.clone())]);
    let sent = room.run(list, Ok(user("bob", 1)));
    assert_eq!(
        sent,
        Ok(vec![Delivery {
            to: Mailbox { id: 1 },
            message: ServerMessage {
                from_user: UserName::new("bob"),
                content: ServerInternal::RoomUsers {
                    room: RoomName::new("lobby"),
                    users: vec![UserName::new("alice")]
                },
            },
        }])
    );
}

#[test]
fn create_room_spawns_tells_and_publishes() {
    let mut registry = RoomProcessor::new();
    let actions = registry.run(command("alice", "lobby", RoomInternal::NewRoom));
    assert_eq!(
        actions,
        vec![
            RoomAction::Spawn(RoomName::new("lobby")),
            notify("alice", ServerInternal::ServerMessage("You created room: lobby".to_string())),
            RoomAction::Broadcast(ServerMessage {
                from_user: UserName::new("alice"),
                content: ServerInternal::ServerMessage("Room lobby created".to_string()),
            }),
        ]
    );
    assert!(registry.has_room(&RoomName::new("lobby")));
    assert!(!registry.has_room(&RoomName::new("Lobby")));
}

#[test]
fn creating_an_existing_room_is_room_exists() {
    let mut registry = RoomProcessor::new();
    registry.run(command("alice", "lobby", RoomInternal::NewRoom));
    let actions = registry.run(command("bob", "lobby", RoomInternal::NewRoom));
    assert_eq!(
        actions,
        vec![notify("bob", ServerInternal::Error("Room already exists: lobby".to_string()))]
    );
    assert_eq!(registry.list_rooms(), "lobby");
}

#[test]
fn list_rooms_names_the_rooms_in_order_of_creation() {
    let mut registry = RoomProcessor::new();
    let actions = registry.run(command("alice", "N/A", RoomInternal::ListRooms));
    assert_eq!(
        actions,
        vec![notify("alice", ServerInternal::ServerMessage("Rooms: []".to_string()))]
    );
    registry.run(command("alice", "lobby", RoomInternal::NewRoom));
    let actions = registry.run(command("alice", "N/A", RoomInternal::ListRooms));
    assert_eq!(
        actions,
        vec![notify("alice", ServerInternal::ServerMessage("Rooms: [lobby]".to_string()))]
    );
    registry.run(command("bob", "games", RoomInternal::NewRoom));
    registry.run(command("bob", "music", RoomInternal::NewRoom));
    let actions = registry.run(command("bob", "N/A", RoomInternal::ListRooms));
    assert_eq!(
        actions,
        vec![notify(
            "bob",
            ServerInternal::ServerMessage("Rooms: [lobby, games, music]".to_string())
        )]
    );
}

#[test]
fn commands_for_an_unknown_room_are_room_not_found() {
    let mut registry = RoomProcessor::new();
    registry.run(command("alice", "lobby", RoomInternal::NewRoom));
    for message in [
        RoomInternal::JoinRoom,
        RoomInternal::LeaveRoom,
        RoomInternal::ListUsers,
        RoomInternal::RoomMessage("hi".to_string()),
    ] {
        let actions = registry.run(command("bob", "attic", message));
        assert_eq!(
            actions,
            vec![notify("bob", ServerInternal::Error("Room not found: attic".to_string()))]
        );
    }
}
