use crate::common::{clone_names, RoomName, UserName};
use crate::connection::wire::{
    encoded_at, lemma_encoded_at_concat, lemma_encoded_at_subrange, lemma_list_at_read,
    lemma_list_at_written, lemma_text_and_list_read, lemma_text_and_list_written,
    lemma_text_at_read, lemma_text_at_written, lemma_three_texts_read, lemma_three_texts_written,
    lemma_two_texts_read, lemma_two_texts_written, lemma_u16_at_read, lemma_u16_at_written,
    lemma_u32_at_read, lemma_u32_at_written, list_at, list_bytes, put_names, put_text, put_u16,
    put_u32, take_names, take_text, take_u16, take_u32, text_at, text_bytes, u16_at, u16_bytes,
    u32_at, u32_bytes,
};
use crate::connection::{ConnectionError, FrameType};
use vstd::prelude::*;

verus! {

/// What the server sends: the user on whose behalf the message travels, and
/// its content. A session does not write broadcasts of its own user to its
/// socket.
#[derive(Debug, PartialEq, Eq)]
pub struct ServerMessage {
    pub from_user: UserName,
    pub content: ServerInternal,
}

/// Content of a message from the server.
#[derive(Debug, PartialEq, Eq)]
pub enum ServerInternal {
    ServerMessage(String),
    GlobalChatMessage { from_user: UserName, content: String },
    ChatMessage(String),
    PrivateMessage { from_user: UserName, content: String },
    UserJoined(UserName),
    UserList { users: Vec<UserName> },
    Error(String),
    Pong(u16),
    RoomMessage { room: RoomName, from: UserName, content: String },
    RoomUsers { room: RoomName, users: Vec<UserName> },
}

/// Mathematical value of a message content.
pub ghost enum ServerInternalView {
    ServerMessage(Seq<char>),
    GlobalChatMessage { from_user: Seq<char>, content: Seq<char> },
    ChatMessage(Seq<char>),
    PrivateMessage { from_user: Seq<char>, content: Seq<char> },
    UserJoined(Seq<char>),
    UserList { users: Seq<Seq<char>> },
    Error(Seq<char>),
    Pong(u16),
    RoomMessage { room: Seq<char>, from: Seq<char>, content: Seq<char> },
    RoomUsers { room: Seq<char>, users: Seq<Seq<char>> },
}

/// Mathematical value of a message from the server.
pub ghost struct ServerMessageView {
    pub from_user: Seq<char>,
    pub content: ServerInternalView,
}

impl View for ServerInternal {
    type V = ServerInternalView;

    open spec fn view(&self) -> ServerInternalView {
        match self {
            ServerInternal::ServerMessage(content) => ServerInternalView::ServerMessage(content@),
            ServerInternal::GlobalChatMessage { from_user, content } => {
                ServerInternalView::GlobalChatMessage { from_user: from_user@, content: content@ }
            },
            ServerInternal::ChatMessage(content) => ServerInternalView::ChatMessage(content@),
            ServerInternal::PrivateMessage { from_user, content } => {
                ServerInternalView::PrivateMessage { from_user: from_user@, content: content@ }
            },
            ServerInternal::UserJoined(user) => ServerInternalView::UserJoined(user@),
            ServerInternal::UserList { users } => ServerInternalView::UserList {
                users: users.deep_view(),
            },
            ServerInternal::Error(message) => ServerInternalView::Error(message@),
            ServerInternal::Pong(nonce) => ServerInternalView::Pong(*nonce),
            ServerInternal::RoomMessage { room, from, content } => ServerInternalView::RoomMessage {
                room: room@,
                from: from@,
                content: content@,
            },
            ServerInternal::RoomUsers { room, users } => ServerInternalView::RoomUsers {
                room: room@,
                users: users.deep_view(),
            },
        }
    }
}

impl DeepView for ServerInternal {
    type V = ServerInternalView;

    open spec fn deep_view(&self) -> ServerInternalView {
        self@
    }
}

impl Clone for ServerInternal {
    fn clone(&self) -> (copy: Self)
        ensures
            copy@ == self@,
    {
        match self {
            ServerInternal::ServerMessage(content) => ServerInternal::ServerMessage(content.clone()),
            ServerInternal::GlobalChatMessage { from_user, content } => {
                ServerInternal::GlobalChatMessage {
                    from_user: from_user.clone(),
                    content: content.clone(),
                }
            },
            ServerInternal::ChatMessage(content) => ServerInternal::ChatMessage(content.clone()),
            ServerInternal::PrivateMessage { from_user, content } => ServerInternal::PrivateMessage {
                from_user: from_user.clone(),
                content: content.clone(),
            },
            ServerInternal::UserJoined(user) => ServerInternal::UserJoined(user.clone()),
            ServerInternal::UserList { users } => ServerInternal::UserList {
                users: clone_names(users),
            },
            ServerInternal::Error(message) => ServerInternal::Error(message.clone()),
            ServerInternal::Pong(nonce) => ServerInternal::Pong(*nonce),
            ServerInternal::RoomMessage { room, from, content } => ServerInternal::RoomMessage {
                room: room.clone(),
                from: from.clone(),
                content: content.clone(),
            },
            ServerInternal::RoomUsers { room, users } => ServerInternal::RoomUsers {
                room: room.clone(),
                users: clone_names(users),
            },
        }
    }
}

impl View for ServerMessage {
    type V = ServerMessageView;

    open spec fn view(&self) -> ServerMessageView {
        ServerMessageView { from_user: self.from_user@, content: self.content@ }
    }
}

impl DeepView for ServerMessage {
    type V = ServerMessageView;

    open spec fn deep_view(&self) -> ServerMessageView {
        self@
    }
}

impl Clone for ServerMessage {
    fn clone(&self) -> (copy: Self)
        ensures
            copy@ == self@,
    {
        ServerMessage { from_user: self.from_user.clone(), content: self.content.clone() }
    }
}

impl ServerInternalView {
    /// The number that says on the wire which content this is.
    pub open spec fn tag(self) -> u32 {
        match self {
            ServerInternalView::ServerMessage(_) => 0,
            ServerInternalView::GlobalChatMessage { .. } => 1,
            ServerInternalView::ChatMessage(_) => 2,
            ServerInternalView::PrivateMessage { .. } => 3,
            ServerInternalView::UserJoined(_) => 4,
            ServerInternalView::UserList { .. } => 5,
            ServerInternalView::Error(_) => 6,
            ServerInternalView::Pong(_) => 7,
            ServerInternalView::RoomMessage { .. } => 8,
            ServerInternalView::RoomUsers { .. } => 9,
        }
    }

    /// The fields of the content on the wire, in the order of their declaration.
    pub open spec fn fields(self) -> Seq<u8> {
        match self {
            ServerInternalView::ServerMessage(content) => text_bytes(content),
            ServerInternalView::GlobalChatMessage { from_user, content } => text_bytes(from_user)
                + text_bytes(content),
            ServerInternalView::ChatMessage(content) => text_bytes(content),
            ServerInternalView::PrivateMessage { from_user, content } => text_bytes(from_user)
                + text_bytes(content),
            ServerInternalView::UserJoined(user) => text_bytes(user),
            ServerInternalView::UserList { users } => list_bytes(users),
            ServerInternalView::Error(message) => text_bytes(message),
            ServerInternalView::Pong(nonce) => u16_bytes(nonce),
            ServerInternalView::RoomMessage { room, from, content } => text_bytes(room)
                + text_bytes(from) + text_bytes(content),
            ServerInternalView::RoomUsers { room, users } => text_bytes(room) + list_bytes(users),
        }
    }

    /// The content on the wire: its tag as a `u32`, then its fields.
    pub open spec fn payload(self) -> Seq<u8> {
        u32_bytes(self.tag()) + self.fields()
    }

    /// The content with tag `tag` whose fields stand at `pos`, and the
    /// position behind them.
    pub open spec fn fields_at(data: Seq<u8>, pos: int, tag: u32) -> Option<(Self, int)> {
        if tag == 0 {
            match text_at(data, pos) {
                Some((content, end)) => Some((ServerInternalView::ServerMessage(content), end)),
                None => None,
            }
        } else if tag == 1 {
            match text_at(data, pos) {
                Some((from_user, next)) => match text_at(data, next) {
                    Some((content, end)) => Some(
                        (ServerInternalView::GlobalChatMessage { from_user, content }, end),
                    ),
                    None => None,
                },
                None => None,
            }
        } else if tag == 2 {
            match text_at(data, pos) {
                Some((content, end)) => Some((ServerInternalView::ChatMessage(content), end)),
                None => None,
            }
        } else if tag == 3 {
            match text_at(data, pos) {
                Some((from_user, next)) => match text_at(data, next) {
                    Some((content, end)) => Some(
                        (ServerInternalView::PrivateMessage { from_user, content }, end),
                    ),
                    None => None,
                },
                None => None,
            }
        } else if tag == 4 {
            match text_at(data, pos) {
                Some((user, end)) => Some((ServerInternalView::UserJoined(user), end)),
                None => None,
            }
        } else if tag == 5 {
            match list_at(data, pos) {
                Some((users, end)) => Some((ServerInternalView::UserList { users }, end)),
                None => None,
            }
        } else if tag == 6 {
            match text_at(data, pos) {
                Some((message, end)) => Some((ServerInternalView::Error(message), end)),
                None => None,
            }
        } else if tag == 7 {
            match u16_at(data, pos) {
                Some((nonce, end)) => Some((ServerInternalView::Pong(nonce), end)),
                None => None,
            }
        } else if tag == 8 {
            match text_at(data, pos) {
                Some((room, next)) => match text_at(data, next) {
                    Some((from, then)) => match text_at(data, then) {
                        Some((content, end)) => Some(
                            (ServerInternalView::RoomMessage { room, from, content }, end),
                        ),
                        None => None,
                    },
                    None => None,
                },
                None => None,
            }
        } else if tag == 9 {
            match text_at(data, pos) {
                Some((room, next)) => match list_at(data, next) {
                    Some((users, end)) => Some((ServerInternalView::RoomUsers { room, users }, end)),
                    None => None,
                },
                None => None,
            }
        } else {
            None
        }
    }

    /// The content that stands at `pos`, and the position behind it.
    pub open spec fn at(data: Seq<u8>, pos: int) -> Option<(Self, int)> {
        match u32_at(data, pos) {
            Some((tag, next)) => Self::fields_at(data, next, tag),
            None => None,
        }
    }

    /// The fields of a content that were written at `pos` are read there.
    proof fn lemma_fields_at_written(self, data: Seq<u8>, pos: int)
        requires
            encoded_at(data, pos, self.fields()),
            data.len() <= u64::MAX,
        ensures
            Self::fields_at(data, pos, self.tag()) == Some((self, pos + self.fields().len())),
    {
        match self {
            ServerInternalView::ServerMessage(content) => {
                lemma_text_at_written(data, pos, content);
            },
            ServerInternalView::GlobalChatMessage { from_user, content } => {
                lemma_two_texts_written(data, pos, from_user, content);
            },
            ServerInternalView::ChatMessage(content) => {
                lemma_text_at_written(data, pos, content);
            },
            ServerInternalView::PrivateMessage { from_user, content } => {
                lemma_two_texts_written(data, pos, from_user, content);
            },
            ServerInternalView::UserJoined(user) => {
                lemma_text_at_written(data, pos, user);
            },
            ServerInternalView::UserList { users } => {
                lemma_list_at_written(data, pos, users);
            },
            ServerInternalView::Error(message) => {
                lemma_text_at_written(data, pos, message);
            },
            ServerInternalView::Pong(nonce) => {
                lemma_u16_at_written(data, pos, nonce);
            },
            ServerInternalView::RoomMessage { room, from, content } => {
                lemma_three_texts_written(data, pos, room, from, content);
            },
            ServerInternalView::RoomUsers { room, users } => {
                lemma_text_and_list_written(data, pos, room, users);
            },
        }
    }

    /// A content that was written at `pos` is read there.
    pub proof fn lemma_at_written(self, data: Seq<u8>, pos: int)
        requires
            encoded_at(data, pos, self.payload()),
            data.len() <= u64::MAX,
        ensures
            Self::at(data, pos) == Some((self, pos + self.payload().len())),
    {
        lemma_encoded_at_concat(data, pos, u32_bytes(self.tag()), self.fields());
        lemma_u32_at_written(data, pos, self.tag());
        self.lemma_fields_at_written(data, pos + 4);
    }

    /// The fields read at `pos` are those of the content that was found.
    proof fn lemma_fields_at_read(data: Seq<u8>, pos: int, tag: u32)
        requires
            0 <= pos <= data.len(),
            Self::fields_at(data, pos, tag) is Some,
        ensures
            Self::fields_at(data, pos, tag).unwrap().0.tag() == tag,
            Self::fields_at(data, pos, tag).unwrap().1 == pos + Self::fields_at(
                data,
                pos,
                tag,
            ).unwrap().0.fields().len(),
            encoded_at(data, pos, Self::fields_at(data, pos, tag).unwrap().0.fields()),
    {
        if tag == 0 || tag == 2 || tag == 4 || tag == 6 {
            lemma_text_at_read(data, pos);
        } else if tag == 1 || tag == 3 {
            lemma_two_texts_read(data, pos);
        } else if tag == 5 {
            lemma_list_at_read(data, pos);
        } else if tag == 7 {
            lemma_u16_at_read(data, pos);
        } else if tag == 8 {
            lemma_three_texts_read(data, pos);
        } else {
            lemma_text_and_list_read(data, pos);
        }
    }

    /// The content read at `pos` is the one whose payload stands there.
    pub proof fn lemma_at_read(data: Seq<u8>, pos: int)
        requires
            Self::at(data, pos) is Some,
        ensures
            Self::at(data, pos).unwrap().1 == pos + Self::at(data, pos).unwrap().0.payload().len(),
            encoded_at(data, pos, Self::at(data, pos).unwrap().0.payload()),
    {
        let (tag, next) = u32_at(data, pos).unwrap();
        let (content, end) = Self::at(data, pos).unwrap();
        lemma_u32_at_read(data, pos);
        Self::lemma_fields_at_read(data, next, tag);
        lemma_encoded_at_concat(data, pos, u32_bytes(tag), content.fields());
    }
}

impl ServerInternal {
    /// Reads the content at `pos`.
    pub fn take(data: &[u8], pos: usize) -> (read: Option<(ServerInternal, usize)>)
        ensures
            match read {
                Some((content, end)) => ServerInternalView::at(data@, pos as int) == Some(
                    (content@, end as int),
                ),
                None => ServerInternalView::at(data@, pos as int) is None,
            },
    {
        let (tag, next) = match take_u32(data, pos) {
            Some(read) => read,
            None => {
                return None;
            },
        };
        if tag == 0 {
            match take_text(data, next) {
                Some((content, end)) => Some((ServerInternal::ServerMessage(content), end)),
                None => None,
            }
        } else if tag == 1 {
            match take_text(data, next) {
                Some((from_user, then)) => match take_text(data, then) {
                    Some((content, end)) => Some(
                        (
                            ServerInternal::GlobalChatMessage {
                                from_user: UserName::from(from_user),
                                content,
                            },
                            end,
                        ),
                    ),
                    None => None,
                },
                None => None,
            }
        } else if tag == 2 {
            match take_text(data, next) {
                Some((content, end)) => Some((ServerInternal::ChatMessage(content), end)),
                None => None,
            }
        } else if tag == 3 {
            match take_text(data, next) {
                Some((from_user, then)) => match take_text(data, then) {
                    Some((content, end)) => Some(
                        (
                            ServerInternal::PrivateMessage {
                                from_user: UserName::from(from_user),
                                content,
                            },
                            end,
                        ),
                    ),
                    None => None,
                },
                None => None,
            }
        } else if tag == 4 {
            match take_text(data, next) {
                Some((user, end)) => Some((ServerInternal::UserJoined(UserName::from(user)), end)),
                None => None,
            }
        } else if tag == 5 {
            match take_names(data, next) {
                Some((users, end)) => Some((ServerInternal::UserList { users }, end)),
                None => None,
            }
        } else if tag == 6 {
            match take_text(data, next) {
                Some((message, end)) => Some((ServerInternal::Error(message), end)),
                None => None,
            }
        } else if tag == 7 {
            match take_u16(data, next) {
                Some((nonce, end)) => Some((ServerInternal::Pong(nonce), end)),
                None => None,
            }
        } else if tag == 8 {
            match take_text(data, next) {
                Some((room, then)) => match take_text(data, then) {
                    Some((from, last)) => match take_text(data, last) {
                        Some((content, end)) => Some(
                            (
                                ServerInternal::RoomMessage {
                                    room: RoomName::from(room),
                                    from: UserName::from(from),
                                    content,
                                },
                                end,
                            ),
                        ),
                        None => None,
                    },
                    None => None,
                },
                None => None,
            }
        } else if tag == 9 {
            match take_text(data, next) {
                Some((room, then)) => match take_names(data, then) {
                    Some((users, end)) => Some(
                        (ServerInternal::RoomUsers { room: RoomName::from(room), users }, end),
                    ),
                    None => None,
                },
                None => None,
            }
        } else {
            None
        }
    }

    /// Appends the content's payload.
    pub fn put(&self, out: &mut Vec<u8>)
        ensures
            final(out)@ == old(out)@ + self@.payload(),
    {
        match self {
            ServerInternal::ServerMessage(content) => {
                put_u32(out, 0);
                put_text(out, content.as_str());
            },
            ServerInternal::GlobalChatMessage { from_user, content } => {
                put_u32(out, 1);
                put_text(out, from_user.user_name());
                put_text(out, content.as_str());
            },
            ServerInternal::ChatMessage(content) => {
                put_u32(out, 2);
                put_text(out, content.as_str());
            },
            ServerInternal::PrivateMessage { from_user, content } => {
                put_u32(out, 3);
                put_text(out, from_user.user_name());
                put_text(out, content.as_str());
            },
            ServerInternal::UserJoined(user) => {
                put_u32(out, 4);
                put_text(out, user.user_name());
            },
            ServerInternal::UserList { users } => {
                put_u32(out, 5);
                put_names(out, users);
            },
            ServerInternal::Error(message) => {
                put_u32(out, 6);
                put_text(out, message.as_str());
            },
            ServerInternal::Pong(nonce) => {
                put_u32(out, 7);
                put_u16(out, *nonce);
            },
            ServerInternal::RoomMessage { room, from, content } => {
                put_u32(out, 8);
                put_text(out, room.room_name());
                put_text(out, from.user_name());
                put_text(out, content.as_str());
            },
            ServerInternal::RoomUsers { room, users } => {
                put_u32(out, 9);
                put_text(out, room.room_name());
                put_names(out, users);
            },
        }
        assert(final(out)@ =~= old(out)@ + self@.payload());
    }
}

impl FrameType for ServerInternal {
    open spec fn payload(value: ServerInternalView) -> Seq<u8> {
        value.payload()
    }

    open spec fn decoded(data: Seq<u8>) -> Option<ServerInternalView> {
        match ServerInternalView::at(data, 0) {
            Some((content, end)) => if end == data.len() {
                Some(content)
            } else {
                None
            },
            None => None,
        }
    }

    proof fn lemma_decoded_payload(value: ServerInternalView) {
        let data = value.payload();
        lemma_encoded_at_subrange(data, 0, data);
        assert(data.subrange(0, data.len() as int) =~= data);
        value.lemma_at_written(data, 0);
    }

    proof fn lemma_payload_decoded(data: Seq<u8>) {
        ServerInternalView::lemma_at_read(data, 0);
        let content = ServerInternalView::at(data, 0).unwrap().0;
        lemma_encoded_at_subrange(data, 0, content.payload());
        assert(data.subrange(0, data.len() as int) =~= data);
    }

    fn encode(&self) -> (bytes: Vec<u8>) {
        let mut bytes: Vec<u8> = Vec::new();
        self.put(&mut bytes);
        assert(bytes@ =~= self@.payload());
        bytes
    }

    fn decode(data: &[u8]) -> (value: Result<Self, ConnectionError>) {
        let value: Result<Self, ConnectionError> = {
            match ServerInternal::take(data, 0) {
                Some((content, end)) => if end == data.len() {
                    Ok(content)
                } else {
                    Err(ConnectionError::DecodingFailure)
                },
                None => Err(ConnectionError::DecodingFailure),
            }
        };
        let len = data.len();
        proof {
            assert(data@.len() == len);
            if value is Ok {
                Self::lemma_payload_decoded(data@);
            } else {
                Self::lemma_undecoded_is_no_payload(data@);
            }
        }
        value
    }
}

impl ServerMessageView {
    /// The message on the wire: the user it travels for, then its content.
    pub open spec fn payload(self) -> Seq<u8> {
        text_bytes(self.from_user) + self.content.payload()
    }
}

impl FrameType for ServerMessage {
    open spec fn payload(value: ServerMessageView) -> Seq<u8> {
        value.payload()
    }

    open spec fn decoded(data: Seq<u8>) -> Option<ServerMessageView> {
        match text_at(data, 0) {
            Some((from_user, next)) => match ServerInternalView::at(data, next) {
                Some((content, end)) => if end == data.len() {
                    Some(ServerMessageView { from_user, content })
                } else {
                    None
                },
                None => None,
            },
            None => None,
        }
    }

    proof fn lemma_decoded_payload(value: ServerMessageView) {
        let data = value.payload();
        lemma_encoded_at_subrange(data, 0, data);
        assert(data.subrange(0, data.len() as int) =~= data);
        lemma_encoded_at_concat(data, 0, text_bytes(value.from_user), value.content.payload());
        lemma_text_at_written(data, 0, value.from_user);
        value.content.lemma_at_written(data, text_bytes(value.from_user).len() as int);
    }

    proof fn lemma_payload_decoded(data: Seq<u8>) {
        let (from_user, next) = text_at(data, 0).unwrap();
        lemma_text_at_read(data, 0);
        ServerInternalView::lemma_at_read(data, next);
        let content = ServerInternalView::at(data, next).unwrap().0;
        lemma_encoded_at_concat(data, 0, text_bytes(from_user), content.payload());
        let value = ServerMessageView { from_user, content };
        lemma_encoded_at_subrange(data, 0, value.payload());
        assert(data.subrange(0, data.len() as int) =~= data);
    }

    fn encode(&self) -> (bytes: Vec<u8>) {
        let mut bytes: Vec<u8> = Vec::new();
        put_text(&mut bytes, self.from_user.user_name());
        self.content.put(&mut bytes);
        assert(bytes@ =~= self@.payload());
        bytes
    }

    fn decode(data: &[u8]) -> (value: Result<Self, ConnectionError>) {
        let value: Result<Self, ConnectionError> = {
            match take_text(data, 0) {
                Some((from_user, next)) => match ServerInternal::take(data, next) {
                    Some((content, end)) => if end == data.len() {
                        Ok(ServerMessage { from_user: UserName::from(from_user), content })
                    } else {
                        Err(ConnectionError::DecodingFailure)
                    },
                    None => Err(ConnectionError::DecodingFailure),
                },
                None => Err(ConnectionError::DecodingFailure),
            }
        };
        let len = data.len();
        proof {
            assert(data@.len() == len);
            if value is Ok {
                Self::lemma_payload_decoded(data@);
            } else {
                Self::lemma_undecoded_is_no_payload(data@);
            }
        }
        value
    }
}

} // verus!
