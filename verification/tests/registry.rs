use chat_app::common::messages::{ServerInternal, ServerMessage, UserInternal, UserMessage};
use chat_app::common::{CommonError, Mailbox, User, UserManager};
use chat_app::server::{UserAction, UserProcessor};
use chat_app::UserName;

fn command(from: &str, message: UserInternal) -> UserMessage {
    UserMessage { from_user: UserName::new(from), message }
}

fn connect(registry: &mut UserProcessor, name: &str) -> User {
    let mut actions = registry.process_user_message(command(name, UserInternal::NewUser), name);
    assert_eq!(actions.len(), 2);
    match actions.remove(0) {
        UserAction::ReplyNewUser(Ok(user)) => user,
        other => panic!("unexpected action {:?}", other),
    }
}

fn deliver(to: Mailbox, from: &str, content: ServerInternal) -> UserAction {
    UserAction::Deliver { to, message: ServerMessage { from_user: UserName::new(from), content } }
}

#[test]
fn new_user_gets_fresh_mailbox_and_is_announced() {
    let mut registry = UserProcessor::new();
    let actions = registry.process_user_message(command("alice", UserInternal::NewUser), "<alice>");
    assert_eq!(actions.len(), 2);
    match &actions[0] {
        UserAction::ReplyNewUser(Ok(user)) => {
            assert_eq!(user.user_name(), &UserName::new("alice"));
            assert_eq!(user.user_tx(), Mailbox { id: 0 });
        }
        other => panic!("unexpected action {:?}", other),
    }
    assert_eq!(
        actions[1],
        UserAction::Broadcast(ServerMessage {
            from_user: UserName::new("alice"),
            content: ServerInternal::ServerMessage("<alice> joined the server".to_string()),
        })
    );
    let bob = connect(&mut registry, "bob");
    assert_eq!(bob.user_tx(), Mailbox { id: 1 });
}

#[test]
fn joined_notice_holds_the_painted_name() {
    let mut registry = UserProcessor::new();
    let actions = registry.run(command("alice", UserInternal::NewUser));
    let text = match &actions[1] {
        UserAction::Broadcast(ServerMessage { content: ServerInternal::ServerMessage(text), .. }) => {
            text.clone()
        }
        other => panic!("unexpected action {:?}", other),
    };
    assert_ne!(text, "alice joined the server");
    let painted = text.strip_suffix(" joined the server").unwrap();
    let stated = [
        "",
        "\u{1b}[38;5;10malice\u{1b}[39m",
        "\u{1b}[38;5;10malice\u{1b}[m",
        "\u{1b}[malice\u{1b}[39m",
        "\u{1b}[malice\u{1b}[m",
    ];
    assert!(stated.contains(&painted));
}

#[test]
fn second_handshake_with_a_name_in_use_fails_with_user_exists() {
    let mut registry = UserProcessor::new();
    let alice = connect(&mut registry, "alice");
    let actions = registry.process_user_message(command("alice", UserInternal::NewUser), "alice");
    assert_eq!(
        actions,
        vec![UserAction::ReplyNewUser(Err(CommonError::UserExists(UserName::new("alice"))))]
    );
    let actions = registry.process_user_message(command("alice", UserInternal::GetUser), "alice");
    match &actions[..] {
        [UserAction::ReplyUser(Ok(user))] => assert_eq!(user.user_tx(), alice.user_tx()),
        other => panic!("unexpected actions {:?}", other),
    }
    let actions = registry.process_user_message(command("alice", UserInternal::Ping(1)), "alice");
    assert_eq!(actions, vec![deliver(alice.user_tx(), "alice", ServerInternal::Pong(1))]);
    assert!(registry.has_user(&UserName::new("alice")));
    assert!(!registry.has_user(&UserName::new("bob")));
}

#[test]
fn names_are_case_sensitive() {
    let mut registry = UserProcessor::new();
    connect(&mut registry, "alice");
    let upper = connect(&mut registry, "Alice");
    assert_eq!(upper.user_tx(), Mailbox { id: 1 });
}

#[test]
fn get_user_of_unknown_name_is_user_not_exists() {
    let mut registry = UserProcessor::new();
    let actions = registry.process_user_message(command("ghost", UserInternal::GetUser), "ghost");
    assert_eq!(
        actions,
        vec![UserAction::ReplyUser(Err(CommonError::UserNotExists(UserName::new("ghost"))))]
    );
}

#[test]
fn private_message_reaches_the_recipient_only() {
    let mut registry = UserProcessor::new();
    connect(&mut registry, "alice");
    let bob = connect(&mut registry, "bob");
    connect(&mut registry, "carol");
    let actions = registry.process_user_message(
        command(
            "alice",
            UserInternal::PrivateMessage { to_user: UserName::new("bob"), content: "psst".to_string() },
        ),
        "alice",
    );
    assert_eq!(
        actions,
        vec![deliver(
            bob.user_tx(),
            "alice",
            ServerInternal::PrivateMessage {
                from_user: UserName::new("alice"),
                content: "psst".to_string()
            }
        )]
    );
}

#[test]
fn private_message_to_nonexistent_user_is_one_error_to_the_sender() {
    let mut registry = UserProcessor::new();
    let alice = connect(&mut registry, "alice");
    connect(&mut registry, "bob");
    let actions = registry.process_user_message(
        command(
            "alice",
            UserInternal::PrivateMessage { to_user: UserName::new("zed"), content: "hi".to_string() },
        ),
        "alice",
    );
    assert_eq!(
        actions,
        vec![deliver(
            alice.user_tx(),
            "alice",
            ServerInternal::Error("User not found: zed".to_string())
        )]
    );
}

#[test]
fn private_message_to_oneself_is_an_error_notice() {
    let mut registry = UserProcessor::new();
    let alice = connect(&mut registry, "alice");
    let actions = registry.process_user_message(
        command(
            "alice",
            UserInternal::PrivateMessage { to_user: UserName::new("alice"), content: "me".to_string() },
        ),
        "alice",
    );
    assert_eq!(
        actions,
        vec![deliver(
            alice.user_tx(),
            "alice",
            ServerInternal::Error("You can't send a private message to yourself".to_string())
        )]
    );
}

#[test]
fn private_message_between_strangers_does_nothing() {
    let mut registry = UserProcessor::new();
    let actions = registry.process_user_message(
        command(
            "alice",
            UserInternal::PrivateMessage { to_user: UserName::new("bob"), content: "hi".to_string() },
        ),
        "alice",
    );
    assert_eq!(actions, vec![]);
}

#[test]
fn ping_yields_one_pong_with_the_same_nonce() {
    let mut registry = UserProcessor::new();
    let alice = connect(&mut registry, "alice");
    connect(&mut registry, "bob");
    for nonce in [0u16, 1, 4242, 65535] {
        let actions = registry.process_user_message(command("alice", UserInternal::Ping(nonce)), "alice");
        assert_eq!(actions, vec![deliver(alice.user_tx(), "alice", ServerInternal::Pong(nonce))]);
    }
}

#[test]
fn ping_of_unknown_user_is_dropped() {
    let mut registry = UserProcessor::new();
    connect(&mut registry, "bob");
    let actions = registry.process_user_message(command("alice", UserInternal::Ping(3)), "alice");
    assert_eq!(actions, vec![]);
}

#[test]
fn list_users_names_everyone_in_order_of_arrival() {
    let mut registry = UserProcessor::new();
    connect(&mut registry, "alice");
    let bob = connect(&mut registry, "bob");
    connect(&mut registry, "carol");
    let actions = registry.process_user_message(command("bob", UserInternal::ListUsers), "bob");
    assert_eq!(
        actions,
        vec![deliver(
            bob.user_tx(),
            "bob",
            ServerInternal::UserList {
                users: vec![UserName::new("alice"), UserName::new("bob"), UserName::new("carol")]
            }
        )]
    );
}

#[test]
fn disconnect_removes_the_user_and_is_announced() {
    let mut registry = UserProcessor::new();
    connect(&mut registry, "alice");
    let bob = connect(&mut registry, "bob");
    let actions = registry.process_user_message(command("alice", UserInternal::DisconnectUser), "alice");
    assert_eq!(
        actions,
        vec![UserAction::Broadcast(ServerMessage {
            from_user: UserName::new("alice"),
            content: ServerInternal::ServerMessage("alice disconnected".to_string()),
        })]
    );
    let actions = registry.process_user_message(command("bob", UserInternal::ListUsers), "bob");
    assert_eq!(
        actions,
        vec![deliver(
            bob.user_tx(),
            "bob",
            ServerInternal::UserList { users: vec![UserName::new("bob")] }
        )]
    );
}

#[test]
fn disconnect_of_absent_name_has_no_effect() {
    let mut registry = UserProcessor::new();
    let bob = connect(&mut registry, "bob");
    let actions = registry.process_user_message(command("alice", UserInternal::DisconnectUser), "alice");
    assert_eq!(actions, vec![]);
    connect(&mut registry, "alice");
    registry.process_user_message(command("alice", UserInternal::DisconnectUser), "alice");
    let actions = registry.process_user_message(command("alice", UserInternal::DisconnectUser), "alice");
    assert_eq!(actions, vec![]);
    let actions = registry.process_user_message(command("bob", UserInternal::ListUsers), "bob");
    assert_eq!(
        actions,
        vec![deliver(
            bob.user_tx(),
            "bob",
            ServerInternal::UserList { users: vec![UserName::new("bob")] }
        )]
    );
}

#[test]
fn reconnected_user_gets_a_new_mailbox() {
    let mut registry = UserProcessor::new();
    let first = connect(&mut registry, "alice");
    registry.process_user_message(command("alice", UserInternal::DisconnectUser), "alice");
    let second = connect(&mut registry, "alice");
    assert_ne!(first.user_tx(), second.user_tx());
    assert!(registry.has_free_mailbox());
}

#[test]
fn user_manager_adds_finds_and_removes() {
    let mut users = UserManager::default();
    assert!(users.has_free_mailbox());
    let alice = users.add_new_user(UserName::new("alice")).unwrap();
    assert_eq!(alice.user_tx(), Mailbox { id: 0 });
    assert_eq!(
        users.add_new_user(UserName::new("alice")),
        Err(CommonError::UserExists(UserName::new("alice")))
    );
    assert_eq!(
        users.add_user(User::new(UserName::new("alice"), Mailbox { id: 9 })),
        Err(CommonError::UserExists(UserName::new("alice")))
    );
    assert_eq!(users.add_user(User::new(UserName::new("bob"), Mailbox { id: 9 })), Ok(()));
    assert_eq!(users.get_user(&UserName::new("bob")).unwrap().user_tx(), Mailbox { id: 9 });
    assert_eq!(
        users.get_user(&UserName::new("zed")).err(),
        Some(CommonError::UserNotExists(UserName::new("zed")))
    );
    assert_eq!(users.list_users(), vec![UserName::new("alice"), UserName::new("bob")]);
    assert_eq!(users.remove_user(&UserName::new("alice")).unwrap().user_tx(), Mailbox { id: 0 });
    assert_eq!(
        users.remove_user(&UserName::new("alice")).err(),
        Some(CommonError::UserNotExists(UserName::new("alice")))
    );
    assert_eq!(users.list_users(), vec![UserName::new("bob")]);
}

#[test]
fn users_are_the_same_when_their_names_are() {
    let one = User::new(UserName::new("alice"), Mailbox { id: 1 });
    let other = User::new(UserName::new("alice"), Mailbox { id: 2 });
    let bob = User::new(UserName::new("bob"), Mailbox { id: 1 });
    assert!(one == other);
    assert!(one != bob);
    assert_eq!(one.clone().user_tx(), Mailbox { id: 1 });
}
