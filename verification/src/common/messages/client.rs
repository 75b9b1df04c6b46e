use crate::common::{RoomName, UserName};
use crate::connection::wire::{
    encoded_at, lemma_encoded_at_concat, lemma_encoded_at_subrange, lemma_text_at_read,
    lemma_text_at_written, lemma_two_texts_read, lemma_two_texts_written, lemma_u16_at_read,
    lemma_u16_at_written, lemma_u32_at_read, lemma_u32_at_written, put_text, put_u16, put_u32,
    take_text, take_u16, take_u32, text_at, text_bytes, u16_at, u16_bytes, u32_at, u32_bytes,
};
use crate::connection::{ConnectionError, FrameType};
use vstd::prelude::*;

verus! {

/// Requests that a client sends to the server.
#[derive(Debug, PartialEq, Eq)]
pub enum ClientMessage {
    GlobalChatMessage(String),
    PrivateMessage { to_user: UserName, content: String },
    Ping(u16),
    ListUsers,
    Disconnect,
    CreateRoom(RoomName),
    JoinRoom(RoomName),
    LeaveRoom(RoomName),
    ListRooms,
    ListRoomUsers(RoomName),
    RoomMessage { room: RoomName, content: String },
}

/// Mathematical value of a client request.
pub ghost enum ClientMessageView {
    GlobalChatMessage(Seq<char>),
    PrivateMessage { to_user: Seq<char>, content: Seq<char> },
    Ping(u16),
    ListUsers,
    Disconnect,
    CreateRoom(Seq<char>),
    JoinRoom(Seq<char>),
    LeaveRoom(Seq<char>),
    ListRooms,
    ListRoomUsers(Seq<char>),
    RoomMessage { room: Seq<char>, content: Seq<char> },
}

impl View for ClientMessage {
    type V = ClientMessageView;

    open spec fn view(&self) -> ClientMessageView {
        match self {
            ClientMessage::GlobalChatMessage(content) => ClientMessageView::GlobalChatMessage(
                content@,
            ),
            ClientMessage::PrivateMessage { to_user, content } => ClientMessageView::PrivateMessage {
                to_user: to_user@,
                content: content@,
            },
            ClientMessage::Ping(nonce) => ClientMessageView::Ping(*nonce),
            ClientMessage::ListUsers => ClientMessageView::ListUsers,
            ClientMessage::Disconnect => ClientMessageView::Disconnect,
            ClientMessage::CreateRoom(room) => ClientMessageView::CreateRoom(room@),
            ClientMessage::JoinRoom(room) => ClientMessageView::JoinRoom(room@),
            ClientMessage::LeaveRoom(room) => ClientMessageView::LeaveRoom(room@),
            ClientMessage::ListRooms => ClientMessageView::ListRooms,
            ClientMessage::ListRoomUsers(room) => ClientMessageView::ListRoomUsers(room@),
            ClientMessage::RoomMessage { room, content } => ClientMessageView::RoomMessage {
                room: room@,
                content: content@,
            },
        }
    }
}

impl DeepView for ClientMessage {
    type V = ClientMessageView;

    open spec fn deep_view(&self) -> ClientMessageView {
        self@
    }
}

impl Clone for ClientMessage {
    fn clone(&self) -> (copy: Self)
        ensures
            copy@ == self@,
    {
        match self {
            ClientMessage::GlobalChatMessage(content) => ClientMessage::GlobalChatMessage(
                content.clone(),
            ),
            ClientMessage::PrivateMessage { to_user, content } => ClientMessage::PrivateMessage {
                to_user: to_user.clone(),
                content: content.clone(),
            },
            ClientMessage::Ping(nonce) => ClientMessage::Ping(*nonce),
            ClientMessage::ListUsers => ClientMessage::ListUsers,
            ClientMessage::Disconnect => ClientMessage::Disconnect,
            ClientMessage::CreateRoom(room) => ClientMessage::CreateRoom(room.clone()),
            ClientMessage::JoinRoom(room) => ClientMessage::JoinRoom(room.clone()),
            ClientMessage::LeaveRoom(room) => ClientMessage::LeaveRoom(room.clone()),
            ClientMessage::ListRooms => ClientMessage::ListRooms,
            ClientMessage::ListRoomUsers(room) => ClientMessage::ListRoomUsers(room.clone()),
            ClientMessage::RoomMessage { room, content } => ClientMessage::RoomMessage {
                room: room.clone(),
                content: content.clone(),
            },
        }
    }
}

impl ClientMessageView {
    /// The number that says on the wire which request this is.
    pub open spec fn tag(self) -> u32 {
        match self {
            ClientMessageView::GlobalChatMessage(_) => 0,
            ClientMessageView::PrivateMessage { .. } => 1,
            ClientMessageView::Ping(_) => 2,
            ClientMessageView::ListUsers => 3,
            ClientMessageView::Disconnect => 4,
            ClientMessageView::CreateRoom(_) => 5,
            ClientMessageView::JoinRoom(_) => 6,
            ClientMessageView::LeaveRoom(_) => 7,
            ClientMessageView::ListRooms => 8,
            ClientMessageView::ListRoomUsers(_) => 9,
            ClientMessageView::RoomMessage { .. } => 10,
        }
    }

    /// The fields of the request on the wire, in the order of their declaration.
    pub open spec fn fields(self) -> Seq<u8> {
        match self {
            ClientMessageView::GlobalChatMessage(content) => text_bytes(content),
            ClientMessageView::PrivateMessage { to_user, content } => text_bytes(to_user)
                + text_bytes(content),
            ClientMessageView::Ping(nonce) => u16_bytes(nonce),
            ClientMessageView::ListUsers => Seq::empty(),
            ClientMessageView::Disconnect => Seq::empty(),
            ClientMessageView::CreateRoom(room) => text_bytes(room),
            ClientMessageView::JoinRoom(room) => text_bytes(room),
            ClientMessageView::LeaveRoom(room) => text_bytes(room),
            ClientMessageView::ListRooms => Seq::empty(),
            ClientMessageView::ListRoomUsers(room) => text_bytes(room),
            ClientMessageView::RoomMessage { room, content } => text_bytes(room) + text_bytes(
                content,
            ),
        }
    }

    /// The request on the wire: its tag as a `u32`, then its fields.
    pub open spec fn payload(self) -> Seq<u8> {
        u32_bytes(self.tag()) + self.fields()
    }

    /// The request with tag `tag` whose fields stand at `pos`, and the
    /// position behind them.
    pub open spec fn fields_at(data: Seq<u8>, pos: int, tag: u32) -> Option<(Self, int)> {
        if tag == 0 {
            match text_at(data, pos) {
                Some((content, end)) => Some((ClientMessageView::GlobalChatMessage(content), end)),
                None => None,
            }
        } else if tag == 1 {
            match text_at(data, pos) {
                Some((to_user, next)) => match text_at(data, next) {
                    Some((content, end)) => Some(
                        (ClientMessageView::PrivateMessage { to_user, content }, end),
                    ),
                    None => None,
                },
                None => None,
            }
        } else if tag == 2 {
            match u16_at(data, pos) {
                Some((nonce, end)) => Some((ClientMessageView::Ping(nonce), end)),
                None => None,
            }
        } else if tag == 3 {
            Some((ClientMessageView::ListUsers, pos))
        } else if tag == 4 {
            Some((ClientMessageView::Disconnect, pos))
        } else if tag == 5 {
            match text_at(data, pos) {
                Some((room, end)) => Some((ClientMessageView::CreateRoom(room), end)),
                None => None,
            }
        } else if tag == 6 {
            match text_at(data, pos) {
                Some((room, end)) => Some((ClientMessageView::JoinRoom(room), end)),
                None => None,
            }
        } else if tag == 7 {
            match text_at(data, pos) {
                Some((room, end)) => Some((ClientMessageView::LeaveRoom(room), end)),
                None => None,
            }
        } else if tag == 8 {
            Some((ClientMessageView::ListRooms, pos))
        } else if tag == 9 {
            match text_at(data, pos) {
                Some((room, end)) => Some((ClientMessageView::ListRoomUsers(room), end)),
                None => None,
            }
        } else if tag == 10 {
            match text_at(data, pos) {
                Some((room, next)) => match text_at(data, next) {
                    Some((content, end)) => Some(
                        (ClientMessageView::RoomMessage { room, content }, end),
                    ),
                    None => None,
                },
                None => None,
            }
        } else {
            None
        }
    }

    /// The request that stands at `pos`, and the position behind it.
    pub open spec fn at(data: Seq<u8>, pos: int) -> Option<(Self, int)> {
        match u32_at(data, pos) {
            Some((tag, next)) => Self::fields_at(data, next, tag),
            None => None,
        }
    }

    /// The fields of a request that were written at `pos` are read there.
    proof fn lemma_fields_at_written(self, data: Seq<u8>, pos: int)
        requires
            encoded_at(data, pos, self.fields()),
            data.len() <= u64::MAX,
        ensures
            Self::fields_at(data, pos, self.tag()) == Some((self, pos + self.fields().len())),
    {
        match self {
            ClientMessageView::GlobalChatMessage(content) => {
                lemma_text_at_written(data, pos, content);
            },
            ClientMessageView::PrivateMessage { to_user, content } => {
                lemma_two_texts_written(data, pos, to_user, content);
            },
            ClientMessageView::Ping(nonce) => {
                lemma_u16_at_written(data, pos, nonce);
            },
            ClientMessageView::ListUsers => {},
            ClientMessageView::Disconnect => {},
            ClientMessageView::CreateRoom(room) => {
                lemma_text_at_written(data, pos, room);
            },
            ClientMessageView::JoinRoom(room) => {
                lemma_text_at_written(data, pos, room);
            },
            ClientMessageView::LeaveRoom(room) => {
                lemma_text_at_written(data, pos, room);
            },
            ClientMessageView::ListRooms => {},
            ClientMessageView::ListRoomUsers(room) => {
                lemma_text_at_written(data, pos, room);
            },
            ClientMessageView::RoomMessage { room, content } => {
                lemma_two_texts_written(data, pos, room, content);
            },
        }
    }

    /// A request that was written at `pos` is read there.
    pub proof fn lemma_at_written(self, data: Seq<u8>, pos: int)
        requires
            encoded_at(data, pos, self.payload()),
            data.len() <= u64::MAX,
        ensures
            Self::at(data, pos) == Some((self, pos + self.payload().len())),
    {
        lemma_encoded_at_concat(data, pos, u32_bytes(self.tag()), self.fields());
        lemma_u32_at_written(data, pos, self.tag());
        self.lemma_fields_at_written(data, pos + 4);
    }

    /// The fields read at `pos` are those of the request that was found.
    proof fn lemma_fields_at_read(data: Seq<u8>, pos: int, tag: u32)
        requires
            0 <= pos <= data.len(),
            Self::fields_at(data, pos, tag) is Some,
        ensures
            Self::fields_at(data, pos, tag).unwrap().0.tag() == tag,
            Self::fields_at(data, pos, tag).unwrap().1 == pos + Self::fields_at(
                data,
                pos,
                tag,
            ).unwrap().0.fields().len(),
            encoded_at(data, pos, Self::fields_at(data, pos, tag).unwrap().0.fields()),
    {
        if tag == 0 || tag == 5 || tag == 6 || tag == 7 || tag == 9 {
            lemma_text_at_read(data, pos);
        } else if tag == 1 || tag == 10 {
            lemma_two_texts_read(data, pos);
        } else if tag == 2 {
            lemma_u16_at_read(data, pos);
        } else {
        }
    }

    /// The request read at `pos` is the one whose payload stands there.
    pub proof fn lemma_at_read(data: Seq<u8>, pos: int)
        requires
            Self::at(data, pos) is Some,
        ensures
            Self::at(data, pos).unwrap().1 == pos + Self::at(data, pos).unwrap().0.payload().len(),
            encoded_at(data, pos, Self::at(data, pos).unwrap().0.payload()),
    {
        let (tag, next) = u32_at(data, pos).unwrap();
        let (request, end) = Self::at(data, pos).unwrap();
        lemma_u32_at_read(data, pos);
        Self::lemma_fields_at_read(data, next, tag);
        lemma_encoded_at_concat(data, pos, u32_bytes(tag), request.fields());
    }
}

impl ClientMessage {
    /// Reads the request at `pos`.
    pub fn take(data: &[u8], pos: usize) -> (read: Option<(ClientMessage, usize)>)
        ensures
            match read {
                Some((request, end)) => ClientMessageView::at(data@, pos as int) == Some(
                    (request@, end as int),
                ),
                None => ClientMessageView::at(data@, pos as int) is None,
            },
    {
        let (tag, next) = match take_u32(data, pos) {
            Some(read) => read,
            None => {
                return None;
            },
        };
        if tag == 0 {
            match take_text(data, next) {
                Some((content, end)) => Some((ClientMessage::GlobalChatMessage(content), end)),
                None => None,
            }
        } else if tag == 1 {
            match take_text(data, next) {
                Some((to_user, then)) => match take_text(data, then) {
                    Some((content, end)) => Some(
                        (
                            ClientMessage::PrivateMessage {
                                to_user: UserName::from(to_user),
                                content,
                            },
                            end,
                        ),
                    ),
                    None => None,
                },
                None => None,
            }
        } else if tag == 2 {
            match take_u16(data, next) {
                Some((nonce, end)) => Some((ClientMessage::Ping(nonce), end)),
                None => None,
            }
        } else if tag == 3 {
            Some((ClientMessage::ListUsers, next))
        } else if tag == 4 {
            Some((ClientMessage::Disconnect, next))
        } else if tag == 5 {
            match take_text(data, next) {
                Some((room, end)) => Some((ClientMessage::CreateRoom(RoomName::from(room)), end)),
                None => None,
            }
        } else if tag == 6 {
            match take_text(data, next) {
                Some((room, end)) => Some((ClientMessage::JoinRoom(RoomName::from(room)), end)),
                None => None,
            }
        } else if tag == 7 {
            match take_text(data, next) {
                Some((room, end)) => Some((ClientMessage::LeaveRoom(RoomName::from(room)), end)),
                None => None,
            }
        } else if tag == 8 {
            Some((ClientMessage::ListRooms, next))
        } else if tag == 9 {
            match take_text(data, next) {
                Some((room, end)) => Some(
                    (ClientMessage::ListRoomUsers(RoomName::from(room)), end),
                ),
                None => None,
            }
        } else if tag == 10 {
            match take_text(data, next) {
                Some((room, then)) => match take_text(data, then) {
                    Some((content, end)) => Some(
                        (ClientMessage::RoomMessage { room: RoomName::from(room), content }, end),
                    ),
                    None => None,
                },
                None => None,
            }
        } else {
            None
        }
    }

    /// Appends the request's payload.
    pub fn put(&self, out: &mut Vec<u8>)
        ensures
            final(out)@ == old(out)@ + self@.payload(),
    {
        match self {
            ClientMessage::GlobalChatMessage(content) => {
                put_u32(out, 0);
                put_text(out, content.as_str());
            },
            ClientMessage::PrivateMessage { to_user, content } => {
                put_u32(out, 1);
                put_text(out, to_user.user_name());
                put_text(out, content.as_str());
            },
            ClientMessage::Ping(nonce) => {
                put_u32(out, 2);
                put_u16(out, *nonce);
            },
            ClientMessage::ListUsers => {
                put_u32(out, 3);
            },
            ClientMessage::Disconnect => {
                put_u32(out, 4);
            },
            ClientMessage::CreateRoom(room) => {
                put_u32(out, 5);
                put_text(out, room.room_name());
            },
            ClientMessage::JoinRoom(room) => {
                put_u32(out, 6);
                put_text(out, room.room_name());
            },
            ClientMessage::LeaveRoom(room) => {
                put_u32(out, 7);
                put_text(out, room.room_name());
            },
            ClientMessage::ListRooms => {
                put_u32(out, 8);
            },
            ClientMessage::ListRoomUsers(room) => {
                put_u32(out, 9);
                put_text(out, room.room_name());
            },
            ClientMessage::RoomMessage { room, content } => {
                put_u32(out, 10);
                put_text(out, room.room_name());
                put_text(out, content.as_str());
            },
        }
        assert(final(out)@ =~= old(out)@ + self@.payload());
    }
}

impl FrameType for ClientMessage {
    open spec fn payload(value: ClientMessageView) -> Seq<u8> {
        value.payload()
    }

    open spec fn decoded(data: Seq<u8>) -> Option<ClientMessageView> {
        match ClientMessageView::at(data, 0) {
            Some((request, end)) => if end == data.len() {
                Some(request)
            } else {
                None
            },
            None => None,
        }
    }

    proof fn lemma_decoded_payload(value: ClientMessageView) {
        let data = value.payload();
        lemma_encoded_at_subrange(data, 0, data);
        assert(data.subrange(0, data.len() as int) =~= data);
        value.lemma_at_written(data, 0);
    }

    proof fn lemma_payload_decoded(data: Seq<u8>) {
        ClientMessageView::lemma_at_read(data, 0);
        let request = ClientMessageView::at(data, 0).unwrap().0;
        lemma_encoded_at_subrange(data, 0, request.payload());
        assert(data.subrange(0, data.len() as int) =~= data);
    }

    fn encode(&self) -> (bytes: Vec<u8>) {
        let mut bytes: Vec<u8> = Vec::new();
        self.put(&mut bytes);
        assert(bytes@ =~= self@.payload());
        bytes
    }

    fn decode(data: &[u8]) -> (value: Result<Self, ConnectionError>) {
        let value: Result<Self, ConnectionError> = {
            match ClientMessage::take(data, 0) {
                Some((request, end)) => if end == data.len() {
                    Ok(request)
                } else {
                    Err(ConnectionError::DecodingFailure)
                },
                None => Err(ConnectionError::DecodingFailure),
            }
        };
        let len = data.len();
        proof {
            assert(data@.len() == len);
            if value is Ok {
                Self::lemma_payload_decoded(data@);
            } else {
                Self::lemma_undecoded_is_no_payload(data@);
            }
        }
        value
    }
}

} // verus!
