use chat_app::common::messages::{ClientMessage, Handshake, ServerInternal, ServerMessage};
use chat_app::connection::{read_frame_from, write_frame_to, ConnectionError, FrameRead, FrameType};
use chat_app::{RoomName, UserName};

fn all_client_messages() -> Vec<ClientMessage> {
    vec![
        ClientMessage::GlobalChatMessage("hi there".to_string()),
        ClientMessage::PrivateMessage { to_user: UserName::new("bob"), content: "psst".to_string() },
        ClientMessage::Ping(0),
        ClientMessage::Ping(65535),
        ClientMessage::ListUsers,
        ClientMessage::Disconnect,
        ClientMessage::CreateRoom(RoomName::new("lobby")),
        ClientMessage::JoinRoom(RoomName::new("lobby")),
        ClientMessage::LeaveRoom(RoomName::new("")),
        ClientMessage::ListRooms,
        ClientMessage::ListRoomUsers(RoomName::new("caf\u{e9}")),
        ClientMessage::RoomMessage { room: RoomName::new("lobby"), content: "\u{1f600}".to_string() },
    ]
}

fn all_server_contents() -> Vec<ServerInternal> {
    vec![
        ServerInternal::ServerMessage("notice".to_string()),
        ServerInternal::GlobalChatMessage {
            from_user: UserName::new("alice"),
            content: "hi".to_string(),
        },
        ServerInternal::ChatMessage("plain".to_string()),
        ServerInternal::PrivateMessage { from_user: UserName::new("alice"), content: "".to_string() },
        ServerInternal::UserJoined(UserName::new("carol")),
        ServerInternal::UserList { users: vec![] },
        ServerInternal::UserList { users: vec![UserName::new("alice"), UserName::new("bob")] },
        ServerInternal::Error("no".to_string()),
        ServerInternal::Pong(258),
        ServerInternal::RoomMessage {
            room: RoomName::new("lobby"),
            from: UserName::new("bob"),
            content: "hello room".to_string(),
        },
        ServerInternal::RoomUsers {
            room: RoomName::new("lobby"),
            users: vec![UserName::new("alice")],
        },
    ]
}

#[test]
fn ping_payload_is_tag_and_nonce() {
    let bytes = ClientMessage::Ping(0x1234).encode();
    assert_eq!(bytes, vec![2, 0, 0, 0, 0x34, 0x12]);
}

#[test]
fn ping_frame_declares_payload_length() {
    let bytes = write_frame_to(&ClientMessage::Ping(7)).unwrap();
    assert_eq!(bytes, vec![6, 0, 0, 0, 2, 0, 0, 0, 7, 0]);
}

#[test]
fn handshake_round_trip() {
    let bytes = Handshake(UserName::new("alice")).encode();
    assert_eq!(bytes, vec![5, 0, 0, 0, 0, 0, 0, 0, b'a', b'l', b'i', b'c', b'e']);
    assert_eq!(Handshake::decode(&bytes), Ok(Handshake(UserName::new("alice"))));
}

#[test]
fn private_message_payload_is_exact() {
    let message =
        ClientMessage::PrivateMessage { to_user: UserName::new("bob"), content: "yo".to_string() };
    assert_eq!(
        message.encode(),
        vec![1, 0, 0, 0, 3, 0, 0, 0, 0, 0, 0, 0, b'b', b'o', b'b', 2, 0, 0, 0, 0, 0, 0, 0, b'y', b'o']
    );
}

#[test]
fn user_list_payload_is_exact() {
    let content = ServerInternal::UserList { users: vec![UserName::new("a"), UserName::new("bc")] };
    assert_eq!(
        content.encode(),
        vec![
            5, 0, 0, 0, 2, 0, 0, 0, 0, 0, 0, 0, 1, 0, 0, 0, 0, 0, 0, 0, b'a', 2, 0, 0, 0, 0, 0, 0,
            0, b'b', b'c'
        ]
    );
}

#[test]
fn every_client_message_round_trips() {
    for message in all_client_messages() {
        let bytes = message.encode();
        assert_eq!(ClientMessage::decode(&bytes), Ok(message));
    }
}

#[test]
fn every_server_content_round_trips() {
    for content in all_server_contents() {
        let bytes = content.encode();
        assert_eq!(ServerInternal::decode(&bytes), Ok(content));
    }
}

#[test]
fn every_server_message_round_trips() {
    for content in all_server_contents() {
        let message = ServerMessage { from_user: UserName::new("alice"), content };
        let bytes = message.encode();
        assert_eq!(ServerMessage::decode(&bytes), Ok(message));
    }
}

#[test]
fn every_frame_declares_the_length_of_its_payload() {
    for message in all_client_messages() {
        let payload = message.encode();
        let frame = write_frame_to(&message).unwrap();
        assert_eq!(frame.len(), payload.len() + 4);
        let declared = u32::from_le_bytes([frame[0], frame[1], frame[2], frame[3]]);
        assert_eq!(declared as usize, payload.len());
        assert_eq!(&frame[4..], &payload[..]);
        let read: Result<FrameRead<ClientMessage>, ConnectionError> = read_frame_from(&frame, false);
        assert_eq!(read, Ok(FrameRead::Complete { frame: message, consumed: frame.len() }));
    }
}

#[test]
fn payload_is_the_fixed_width_layout_of_bincode() {
    let config = bincode::config::legacy();
    let expected = bincode::encode_to_vec(
        (1u32, "bob".to_string(), "hello \u{e9}".to_string()),
        config,
    )
    .unwrap();
    let message = ClientMessage::PrivateMessage {
        to_user: UserName::new("bob"),
        content: "hello \u{e9}".to_string(),
    };
    assert_eq!(message.encode(), expected);

    let expected = bincode::encode_to_vec((2u32, 40000u16), config).unwrap();
    assert_eq!(ClientMessage::Ping(40000).encode(), expected);

    let expected = bincode::encode_to_vec(
        (9u32, "lobby".to_string(), vec!["alice".to_string(), "bob".to_string()]),
        config,
    )
    .unwrap();
    let content = ServerInternal::RoomUsers {
        room: RoomName::new("lobby"),
        users: vec![UserName::new("alice"), UserName::new("bob")],
    };
    assert_eq!(content.encode(), expected);
}

#[test]
fn bincode_reads_what_the_codec_wrote() {
    let config = bincode::config::legacy();
    let bytes = ServerInternal::RoomMessage {
        room: RoomName::new("lobby"),
        from: UserName::new("bob"),
        content: "hi".to_string(),
    }
    .encode();
    let ((tag, room, from, content), used): ((u32, String, String, String), usize) =
        bincode::decode_from_slice(&bytes, config).unwrap();
    assert_eq!(used, bytes.len());
    assert_eq!((tag, room.as_str(), from.as_str(), content.as_str()), (8, "lobby", "bob", "hi"));
}

#[test]
fn decode_refuses_unknown_tag() {
    assert_eq!(ClientMessage::decode(&[11, 0, 0, 0]), Err(ConnectionError::DecodingFailure));
    assert_eq!(ServerInternal::decode(&[10, 0, 0, 0]), Err(ConnectionError::DecodingFailure));
}

#[test]
fn decode_refuses_trailing_bytes() {
    let mut bytes = ClientMessage::ListUsers.encode();
    bytes.push(0);
    assert_eq!(ClientMessage::decode(&bytes), Err(ConnectionError::DecodingFailure));
}

#[test]
fn decode_refuses_short_payload() {
    assert_eq!(ClientMessage::decode(&[]), Err(ConnectionError::DecodingFailure));
    assert_eq!(ClientMessage::decode(&[2, 0, 0, 0, 1]), Err(ConnectionError::DecodingFailure));
    let bytes = ClientMessage::GlobalChatMessage("hello".to_string()).encode();
    assert_eq!(
        ClientMessage::decode(&bytes[..bytes.len() - 1]),
        Err(ConnectionError::DecodingFailure)
    );
}

#[test]
fn decode_refuses_text_that_is_not_utf8() {
    let bytes = vec![0, 0, 0, 0, 2, 0, 0, 0, 0, 0, 0, 0, 0xff, 0xfe];
    assert_eq!(ClientMessage::decode(&bytes), Err(ConnectionError::DecodingFailure));
}

#[test]
fn decode_refuses_list_longer_than_the_payload() {
    let bytes = vec![5, 0, 0, 0, 0xff, 0xff, 0xff, 0xff, 0xff, 0xff, 0xff, 0xff];
    assert_eq!(ServerInternal::decode(&bytes), Err(ConnectionError::DecodingFailure));
}

#[test]
fn frame_with_trailing_bytes_reads_first_frame_only() {
    let mut bytes = write_frame_to(&ClientMessage::JoinRoom(RoomName::new("lobby"))).unwrap();
    let first = bytes.len();
    bytes.extend_from_slice(&[1, 2, 3]);
    let read: Result<FrameRead<ClientMessage>, ConnectionError> = read_frame_from(&bytes, false);
    assert_eq!(
        read,
        Ok(FrameRead::Complete {
            frame: ClientMessage::JoinRoom(RoomName::new("lobby")),
            consumed: first
        })
    );
}

#[test]
fn stream_closed_before_a_frame_is_connection_closed() {
    let read: Result<FrameRead<ClientMessage>, ConnectionError> = read_frame_from(&[], true);
    assert_eq!(read, Err(ConnectionError::ConnectionClosed));
    let read: Result<FrameRead<ClientMessage>, ConnectionError> = read_frame_from(&[6, 0], true);
    assert_eq!(read, Err(ConnectionError::ConnectionClosed));
}

#[test]
fn stream_closed_inside_a_payload_is_invalid_frame_size() {
    let frame = write_frame_to(&ClientMessage::Ping(7)).unwrap();
    let read: Result<FrameRead<ClientMessage>, ConnectionError> =
        read_frame_from(&frame[..frame.len() - 1], true);
    assert_eq!(read, Err(ConnectionError::InvalidFrameSize));
}

#[test]
fn open_stream_says_how_many_bytes_are_missing() {
    let frame = write_frame_to(&ClientMessage::Ping(7)).unwrap();
    let read: Result<FrameRead<ClientMessage>, ConnectionError> = read_frame_from(&[], false);
    assert_eq!(read, Ok(FrameRead::Incomplete { missing: 4 }));
    let read: Result<FrameRead<ClientMessage>, ConnectionError> =
        read_frame_from(&frame[..3], false);
    assert_eq!(read, Ok(FrameRead::Incomplete { missing: 1 }));
    let read: Result<FrameRead<ClientMessage>, ConnectionError> =
        read_frame_from(&frame[..6], false);
    assert_eq!(read, Ok(FrameRead::Incomplete { missing: 4 }));
}

#[test]
fn frame_with_malformed_payload_is_decoding_failure() {
    let bytes = vec![4, 0, 0, 0, 99, 0, 0, 0];
    let read: Result<FrameRead<ClientMessage>, ConnectionError> = read_frame_from(&bytes, false);
    assert_eq!(read, Err(ConnectionError::DecodingFailure));
}

#[test]
fn frame_of_wrong_type_is_decoding_failure() {
    let bytes = write_frame_to(&ClientMessage::Ping(7)).unwrap();
    let read: Result<FrameRead<Handshake>, ConnectionError> = read_frame_from(&bytes, false);
    assert_eq!(read, Err(ConnectionError::DecodingFailure));
}

#[test]
fn read_failure_tells_end_of_stream_from_other_failures() {
    assert_eq!(ConnectionError::read_failure(true), ConnectionError::ConnectionClosed);
    assert_eq!(ConnectionError::read_failure(false), ConnectionError::ConnectionDropped);
}
