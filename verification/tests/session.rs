use chat_app::common::messages::{
    ClientMessage, Handshake, ProcessInternal, ProcessMessage, ServerInternal, ServerMessage,
    UserInternal, UserMessage,
};
use chat_app::common::{CommonError, Mailbox, User};
use chat_app::connection::ConnectionError;
use chat_app::server::{
    ClientHandler, Route, ServerError, ServerProcessor, SessionAction, SessionEvent, SessionState,
    SessionStep, HANDSHAKE_TIMEOUT_SECS,
};
use chat_app::client::{parse_command, parse_user_input, AfterSend, Client, PongCheck};
use chat_app::{init, Error, UserName};

fn submit_user(name: &str, message: UserInternal) -> SessionAction {
    SessionAction::Submit(ProcessMessage::Internal(ProcessInternal::UserMessage(UserMessage {
        from_user: UserName::new(name),
        message,
    })))
}

fn active(name: &str) -> ClientHandler {
    let mut session = ClientHandler::init();
    session.authenticate(Ok(Handshake(UserName::new(name))));
    let step = session.welcome_painted(Ok(User::new(UserName::new(name), Mailbox { id: 0 })), name);
    assert_eq!(step.outcome, Ok(()));
    assert_eq!(session.state(), SessionState::Active);
    session
}

#[test]
fn connecting_session_awaits_the_handshake_once_accepted() {
    let mut session = ClientHandler::new();
    assert_eq!(session.state(), SessionState::Connecting);
    let step = session.run(SessionEvent::Mailbox(ServerMessage {
        from_user: UserName::new("bob"),
        content: ServerInternal::Pong(1),
    }));
    assert_eq!(step, SessionStep { actions: vec![], outcome: Ok(()) });
    session.accept();
    assert_eq!(session.state(), SessionState::Authenticating);
    session.accept();
    assert_eq!(session.state(), SessionState::Authenticating);

    let mut early = ClientHandler::new();
    let step = early.authenticate(Ok(Handshake(UserName::new("alice"))));
    assert_eq!(step.outcome, Err(ServerError::InvalidHandshake));
    assert_eq!(early.state(), SessionState::Closed);
}

#[test]
fn handshake_asks_the_registry_for_the_name() {
    let mut session = ClientHandler::init();
    assert_eq!(session.state(), SessionState::Authenticating);
    assert_eq!(session.user(), None);
    let step = session.authenticate(Ok(Handshake(UserName::new("alice"))));
    assert_eq!(
        step,
        SessionStep { actions: vec![submit_user("alice", UserInternal::NewUser)], outcome: Ok(()) }
    );
    assert_eq!(session.state(), SessionState::Authenticating);
    assert_eq!(session.user(), Some(&UserName::new("alice")));
}

#[test]
fn first_frame_that_is_no_handshake_is_invalid_handshake() {
    let mut session = ClientHandler::init();
    let step = session.authenticate(Err(ConnectionError::DecodingFailure));
    assert_eq!(step, SessionStep { actions: vec![], outcome: Err(ServerError::InvalidHandshake) });
    assert_eq!(session.state(), SessionState::Closed);
}

#[test]
fn second_handshake_is_invalid_handshake() {
    let mut session = ClientHandler::init();
    session.authenticate(Ok(Handshake(UserName::new("alice"))));
    let step = session.authenticate(Ok(Handshake(UserName::new("bob"))));
    assert_eq!(step.outcome, Err(ServerError::InvalidHandshake));
    assert_eq!(session.state(), SessionState::Closed);
}

#[test]
fn admitted_user_is_welcomed_and_becomes_active() {
    let mut session = ClientHandler::init();
    session.authenticate(Ok(Handshake(UserName::new("alice"))));
    let step =
        session.welcome_painted(Ok(User::new(UserName::new("alice"), Mailbox { id: 4 })), "ALICE");
    assert_eq!(
        step,
        SessionStep {
            actions: vec![SessionAction::Write(ServerInternal::ServerMessage(
                "Welcome, ALICE!".to_string()
            ))],
            outcome: Ok(()),
        }
    );
    assert_eq!(session.state(), SessionState::Active);
}

#[test]
fn welcome_holds_the_painted_name() {
    let mut session = ClientHandler::init();
    session.authenticate(Ok(Handshake(UserName::new("alice"))));
    let step = session.welcome(Ok(User::new(UserName::new("alice"), Mailbox { id: 4 })));
    let text = match &step.actions[..] {
        [SessionAction::Write(ServerInternal::ServerMessage(text))] => text.clone(),
        other => panic!("unexpected actions {:?}", other),
    };
    assert_ne!(text, "Welcome, alice!");
    let painted = text.strip_prefix("Welcome, ").unwrap().strip_suffix("!").unwrap();
    let stated = [
        "",
        "\u{1b}[38;5;10malice\u{1b}[39m",
        "\u{1b}[38;5;10malice\u{1b}[m",
        "\u{1b}[malice\u{1b}[39m",
        "\u{1b}[malice\u{1b}[m",
    ];
    assert!(stated.contains(&painted));
}

#[test]
fn name_collision_closes_the_session_with_an_error_notice() {
    let mut session = ClientHandler::init();
    session.authenticate(Ok(Handshake(UserName::new("alice"))));
    let step = session.welcome(Err(CommonError::UserExists(UserName::new("alice"))));
    assert_eq!(
        step,
        SessionStep {
            actions: vec![SessionAction::Write(ServerInternal::Error(
                "User already exists: alice".to_string()
            ))],
            outcome: Err(ServerError::Common(CommonError::UserExists(UserName::new("alice")))),
        }
    );
    assert_eq!(session.state(), SessionState::Closed);
}

#[test]
fn answer_without_a_handshake_is_invalid_handshake() {
    let mut session = ClientHandler::init();
    let step = session.welcome(Ok(User::new(UserName::new("alice"), Mailbox { id: 4 })));
    assert_eq!(step, SessionStep { actions: vec![], outcome: Err(ServerError::InvalidHandshake) });
    assert_eq!(session.state(), SessionState::Closed);
}

#[test]
fn handshake_timeout_tells_the_client_and_closes() {
    assert_eq!(HANDSHAKE_TIMEOUT_SECS, 5);
    let mut session = ClientHandler::init();
    let step = session.timeout();
    assert_eq!(
        step,
        SessionStep {
            actions: vec![SessionAction::Write(ServerInternal::Error(
                "Handshake timeout".to_string()
            ))],
            outcome: Err(ServerError::HandshakeTimeout),
        }
    );
    assert_eq!(session.state(), SessionState::Closed);

    let mut session = ClientHandler::init();
    session.authenticate(Ok(Handshake(UserName::new("alice"))));
    assert_eq!(session.timeout().outcome, Err(ServerError::HandshakeTimeout));
}

#[test]
fn timer_has_no_effect_on_an_active_session() {
    let mut session = active("alice");
    assert_eq!(session.timeout(), SessionStep { actions: vec![], outcome: Ok(()) });
    assert_eq!(session.state(), SessionState::Active);
}

#[test]
fn frames_go_to_the_router_in_the_name_of_the_user() {
    let mut session = active("alice");
    let step = session.run(SessionEvent::Frame(Ok(ClientMessage::Ping(9))));
    assert_eq!(
        step,
        SessionStep {
            actions: vec![SessionAction::Submit(ProcessMessage::ClientMessage {
                from_user: UserName::new("alice"),
                message: ClientMessage::Ping(9),
            })],
            outcome: Ok(()),
        }
    );
    assert_eq!(session.state(), SessionState::Active);
}

#[test]
fn disconnect_request_ends_the_session_after_telling_the_router() {
    let mut session = active("alice");
    let step = session.run(SessionEvent::Frame(Ok(ClientMessage::Disconnect)));
    assert_eq!(
        step,
        SessionStep {
            actions: vec![
                SessionAction::Submit(ProcessMessage::ClientMessage {
                    from_user: UserName::new("alice"),
                    message: ClientMessage::Disconnect,
                }),
                submit_user("alice", UserInternal::DisconnectUser),
            ],
            outcome: Ok(()),
        }
    );
    assert_eq!(session.state(), SessionState::Closed);
}

#[test]
fn closed_connection_ends_the_session_silently() {
    let mut session = active("alice");
    let step = session.run(SessionEvent::Frame(Err(ConnectionError::ConnectionClosed)));
    assert_eq!(
        step,
        SessionStep {
            actions: vec![submit_user("alice", UserInternal::DisconnectUser)],
            outcome: Ok(()),
        }
    );
    assert_eq!(session.state(), SessionState::Closed);
}

#[test]
fn read_error_ends_the_session_with_the_error() {
    for error in [
        ConnectionError::DecodingFailure,
        ConnectionError::InvalidFrameSize,
        ConnectionError::ConnectionDropped,
        ConnectionError::Io,
    ] {
        let mut session = active("alice");
        let step = session.run(SessionEvent::Frame(Err(error)));
        assert_eq!(
            step,
            SessionStep {
                actions: vec![submit_user("alice", UserInternal::DisconnectUser)],
                outcome: Err(ServerError::Connection(error)),
            }
        );
        assert_eq!(session.state(), SessionState::Closed);
    }
}

#[test]
fn shutdown_submits_the_disconnect() {
    let mut session = active("alice");
    let step = session.run(SessionEvent::Shutdown);
    assert_eq!(
        step,
        SessionStep {
            actions: vec![submit_user("alice", UserInternal::DisconnectUser)],
            outcome: Ok(()),
        }
    );
    assert_eq!(session.state(), SessionState::Closed);
    assert_eq!(session.run(SessionEvent::Shutdown), SessionStep { actions: vec![], outcome: Ok(()) });
}

#[test]
fn mailbox_deliveries_are_written_whatever_their_origin() {
    let mut session = active("alice");
    for from in ["alice", "bob"] {
        let step = session.run(SessionEvent::Mailbox(ServerMessage {
            from_user: UserName::new(from),
            content: ServerInternal::Pong(3),
        }));
        assert_eq!(
            step,
            SessionStep {
                actions: vec![SessionAction::Write(ServerInternal::Pong(3))],
                outcome: Ok(()),
            }
        );
    }
}

#[test]
fn events_have_no_effect_before_the_session_is_active() {
    let mut session = ClientHandler::init();
    let step = session.run(SessionEvent::Frame(Ok(ClientMessage::ListUsers)));
    assert_eq!(step, SessionStep { actions: vec![], outcome: Ok(()) });
    assert_eq!(session.state(), SessionState::Authenticating);
}

#[test]
fn global_chat_reaches_bob_and_not_alice() {
    let mut alice = active("alice");
    let mut bob = active("bob");
    let step = alice.run(SessionEvent::Frame(Ok(ClientMessage::GlobalChatMessage("hi".to_string()))));
    let submitted = match step.actions.into_iter().next() {
        Some(SessionAction::Submit(message)) => message,
        other => panic!("unexpected action {:?}", other),
    };
    let published = match ServerProcessor::new().run(submitted) {
        Route::Broadcast(message) => message,
        other => panic!("unexpected route {:?}", other),
    };
    let at_bob = bob.run(SessionEvent::Broadcast(published.clone()));
    assert_eq!(
        at_bob,
        SessionStep {
            actions: vec![SessionAction::Write(ServerInternal::GlobalChatMessage {
                from_user: UserName::new("alice"),
                content: "hi".to_string(),
            })],
            outcome: Ok(()),
        }
    );
    let at_alice = alice.run(SessionEvent::Broadcast(published));
    assert_eq!(at_alice, SessionStep { actions: vec![], outcome: Ok(()) });
}

#[test]
fn address_falls_back_to_the_defaults() {
    assert_eq!(init(None, None), "localhost:8080");
    assert_eq!(init(Some("0.0.0.0".to_string()), None), "0.0.0.0:8080");
    assert_eq!(init(None, Some("9000".to_string())), "localhost:9000");
    assert_eq!(init(Some("chat.example".to_string()), Some("1".to_string())), "chat.example:1");
}

#[test]
fn errors_wrap_the_errors_of_the_parts() {
    assert_eq!(
        ServerError::from(ConnectionError::InvalidFrameSize),
        ServerError::Connection(ConnectionError::InvalidFrameSize)
    );
    assert_eq!(
        ServerError::from(CommonError::NoUsersInRoom),
        ServerError::Common(CommonError::NoUsersInRoom)
    );
    assert_eq!(
        Error::from(ServerError::HandshakeTimeout),
        Error::Server(ServerError::HandshakeTimeout)
    );
    assert_eq!(Error::from(CommonError::RoomMessageNotSent), Error::Common(CommonError::RoomMessageNotSent));
    assert_eq!(
        Error::from(ConnectionError::ConnectionClosed),
        Error::Connection(ConnectionError::ConnectionClosed)
    );
}

#[test]
fn every_error_has_its_notice() {
    let alice = User::new(UserName::new("alice"), Mailbox { id: 0 });
    assert_eq!(CommonError::UserExists(UserName::new("alice")).to_string(), "User already exists: alice");
    assert_eq!(CommonError::UserInRoom(alice.clone()).to_string(), "User is already in the room: alice");
    assert_eq!(CommonError::UserNotExists(UserName::new("alice")).to_string(), "User not found: alice");
    assert_eq!(CommonError::UserNotInRoom(alice).to_string(), "User is not in the room: alice");
    assert_eq!(
        CommonError::RoomExists(chat_app::RoomName::new("lobby")).to_string(),
        "Room already exists: lobby"
    );
    assert_eq!(CommonError::NoUsersInRoom.to_string(), "No users in the room");
    assert_eq!(
        CommonError::RoomMessageNotSent.to_string(),
        "Room message could not be sent to every user"
    );
    assert_eq!(
        CommonError::RoomNotFound(chat_app::RoomName::new("attic")).to_string(),
        "Room not found: attic"
    );
}

#[test]
fn plain_lines_are_global_chat() {
    assert_eq!(
        parse_user_input("hello there", 1),
        Some(ClientMessage::GlobalChatMessage("hello there".to_string()))
    );
    assert_eq!(parse_user_input("", 1), Some(ClientMessage::GlobalChatMessage(String::new())));
}

#[test]
fn commands_are_told_by_their_first_word_in_any_case() {
    assert_eq!(parse_user_input(":quit", 1), Some(ClientMessage::Disconnect));
    assert_eq!(parse_user_input(":QUIT now", 1), Some(ClientMessage::Disconnect));
    assert_eq!(parse_user_input(":users", 1), Some(ClientMessage::ListUsers));
    assert_eq!(parse_user_input(":Ping", 513), Some(ClientMessage::Ping(513)));
    assert_eq!(parse_user_input(":quitx", 1), None);
    assert_eq!(parse_user_input(":", 1), None);
    assert_eq!(parse_user_input(": quit", 1), None);
    assert_eq!(parse_command(":quit", ":users", 1), Some(ClientMessage::ListUsers));
}

#[test]
fn private_message_command_names_the_user_and_keeps_the_rest() {
    assert_eq!(
        parse_user_input(":pm bob hello there  friend", 1),
        Some(ClientMessage::PrivateMessage {
            to_user: UserName::new("bob"),
            content: "hello there  friend".to_string()
        })
    );
    assert_eq!(
        parse_user_input(":pm bob", 1),
        Some(ClientMessage::PrivateMessage { to_user: UserName::new("bob"), content: String::new() })
    );
    assert_eq!(
        parse_user_input(":pm", 1),
        Some(ClientMessage::PrivateMessage { to_user: UserName::new(""), content: String::new() })
    );
    assert_eq!(
        parse_user_input(":PM  bob hi", 1),
        Some(ClientMessage::PrivateMessage { to_user: UserName::new(""), content: "bob hi".to_string() })
    );
    assert_eq!(
        parse_user_input(":pm b\u{f6}b gr\u{fc}\u{df}e", 1),
        Some(ClientMessage::PrivateMessage {
            to_user: UserName::new("b\u{f6}b"),
            content: "gr\u{fc}\u{df}e".to_string()
        })
    );
}

#[test]
fn client_opens_with_the_handshake_of_its_user() {
    let client = Client::new("alice");
    assert_eq!(client.authenticate(), Handshake(UserName::new("alice")));
}

#[test]
fn client_waits_for_the_pong_of_its_ping() {
    assert_eq!(Client::process_frame(&ClientMessage::Ping(7)), AfterSend::AwaitPong(7));
    assert_eq!(Client::process_frame(&ClientMessage::Disconnect), AfterSend::Finish);
    assert_eq!(Client::process_frame(&ClientMessage::ListUsers), AfterSend::Continue);
    assert_eq!(
        Client::process_frame(&ClientMessage::GlobalChatMessage("hi".to_string())),
        AfterSend::Continue
    );
    assert_eq!(Client::check_pong(7, &ServerInternal::Pong(7)), PongCheck::Answered);
    assert_eq!(Client::check_pong(7, &ServerInternal::Pong(8)), PongCheck::Mismatch(8));
    assert_eq!(
        Client::check_pong(7, &ServerInternal::Error("no".to_string())),
        PongCheck::NotAPong
    );
}
