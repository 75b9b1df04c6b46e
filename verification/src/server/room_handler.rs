use crate::common::messages::{
    RoomInternal, RoomInternalView, RoomMessage, RoomMessageView, ServerInternal,
    ServerInternalView, ServerMessage, ServerMessageView,
};
use crate::common::{CommonError, CommonErrorView, RoomName, UserName};
use vstd::prelude::*;
use vstd::string::StringExecFns;

verus! {

/// What the room registry asks of its surroundings after a command.
#[derive(Debug, PartialEq, Eq)]
pub enum RoomAction {
    /// Start the actor of a new room and keep its handle under the room's name.
    Spawn(RoomName),
    /// Ask the user registry for the record of `user` and put the message
    /// into that user's mailbox.
    Notify { user: UserName, message: ServerMessage },
    /// Publish on the global broadcast channel.
    Broadcast(ServerMessage),
    /// Hand the command on, unchanged, to the room that it names.
    Forward(RoomMessage),
}

/// Mathematical value of an action of the room registry.
pub ghost enum RoomActionView {
    Spawn(Seq<char>),
    Notify { user: Seq<char>, message: ServerMessageView },
    Broadcast(ServerMessageView),
    Forward(RoomMessageView),
}

impl View for RoomAction {
    type V = RoomActionView;

    open spec fn view(&self) -> RoomActionView {
        match self {
            RoomAction::Spawn(room) => RoomActionView::Spawn(room@),
            RoomAction::Notify { user, message } => RoomActionView::Notify {
                user: user@,
                message: message@,
            },
            RoomAction::Broadcast(message) => RoomActionView::Broadcast(message@),
            RoomAction::Forward(command) => RoomActionView::Forward(command@),
        }
    }
}

impl DeepView for RoomAction {
    type V = RoomActionView;

    open spec fn deep_view(&self) -> RoomActionView {
        self@
    }
}

/// The names of `rooms` with `", "` between them.
pub open spec fn listed(rooms: Seq<Seq<char>>) -> Seq<char>
    decreases rooms.len(),
{
    if rooms.len() == 0 {
        Seq::empty()
    } else if rooms.len() == 1 {
        rooms[0]
    } else {
        listed(rooms.drop_last()) + ", "@ + rooms.last()
    }
}

/// A plain notice of the server for `user`.
pub open spec fn tell(user: Seq<char>, text: Seq<char>) -> RoomActionView {
    RoomActionView::Notify {
        user,
        message: ServerMessageView {
            from_user: user,
            content: ServerInternalView::ServerMessage(text),
        },
    }
}

/// The notice of an error for `user`.
pub open spec fn refuse(user: Seq<char>, error: CommonErrorView) -> RoomActionView {
    RoomActionView::Notify {
        user,
        message: ServerMessageView {
            from_user: user,
            content: ServerInternalView::Error(error.text()),
        },
    }
}

/// The room registry's rule: what a command makes of the list of rooms, and
/// what it has the surroundings do, in order.
///
/// - A room is created unless one has its name: its actor is started, the
///   creator is told, and the notice that the room exists is published. For
///   a name that is taken the creator gets the error, and nothing changes.
/// - The list of rooms goes to the user who asked.
/// - Every other command is handed on to the room it names; where there is
///   no such room, the user gets the error.
pub open spec fn registry_step(rooms: Seq<Seq<char>>, command: RoomMessageView) -> (
    Seq<Seq<char>>,
    Seq<RoomActionView>,
) {
    let from = command.from_user;
    let room = command.room_name;
    match command.message {
        RoomInternalView::NewRoom => if rooms.contains(room) {
            (rooms, seq![refuse(from, CommonErrorView::RoomExists(room))])
        } else {
            (
                rooms.push(room),
                seq![
                    RoomActionView::Spawn(room),
                    tell(from, "You created room: "@ + room),
                    RoomActionView::Broadcast(
                        ServerMessageView {
                            from_user: from,
                            content: ServerInternalView::ServerMessage(
                                "Room "@ + room + " created"@,
                            ),
                        },
                    ),
                ],
            )
        },
        RoomInternalView::ListRooms => (
            rooms,
            seq![tell(from, "Rooms: ["@ + listed(rooms) + "]"@)],
        ),
        _ => if rooms.contains(room) {
            (rooms, seq![RoomActionView::Forward(command)])
        } else {
            (rooms, seq![refuse(from, CommonErrorView::RoomNotFound(room))])
        },
    }
}

/// The room registry: the one owner of the list of rooms, in the order in
/// which they were created. A room stays for as long as the server runs.
pub struct RoomProcessor {
    room_manager: Vec<RoomName>,
}

impl View for RoomProcessor {
    type V = Seq<Seq<char>>;

    closed spec fn view(&self) -> Seq<Seq<char>> {
        self.room_manager.deep_view()
    }
}

/// The list that holds `action` alone.
fn one(action: RoomAction) -> (actions: Vec<RoomAction>)
    ensures
        actions.deep_view() == seq![action@],
{
    let mut actions: Vec<RoomAction> = Vec::new();
    actions.push(action);
    assert(actions.deep_view() =~= seq![action@]);
    actions
}

impl RoomProcessor {
    /// A registry without rooms.
    pub fn new() -> (processor: Self)
        ensures
            processor@ == Seq::<Seq<char>>::empty(),
    {
        let processor = Self { room_manager: Vec::new() };
        assert(processor@ =~= Seq::<Seq<char>>::empty());
        processor
    }

    /// Whether a room has the name `room_name`.
    pub fn has_room(&self, room_name: &RoomName) -> (found: bool)
        ensures
            found == self@.contains(room_name@),
    {
        let mut i: usize = 0;
        while i < self.room_manager.len()
            invariant
                i <= self.room_manager.len(),
                forall|j: int| 0 <= j < i ==> self@[j] != room_name@,
            decreases self.room_manager.len() - i,
        {
            if self.room_manager[i] == *room_name {
                assert(self@[i as int] == room_name@);
                return true;
            }
            i += 1;
        }
        false
    }

    /// The names of the rooms with `", "` between them.
    pub fn list_rooms(&self) -> (text: String)
        ensures
            text@ == listed(self@),
    {
        let mut text = String::new();
        let mut i: usize = 0;
        assert(self@.take(0) =~= Seq::<Seq<char>>::empty());
        while i < self.room_manager.len()
            invariant
                i <= self.room_manager.len(),
                text@ == listed(self@.take(i as int)),
            decreases self.room_manager.len() - i,
        {
            if i > 0 {
                text.append(", ");
            }
            text.append(self.room_manager[i].room_name());
            proof {
                let next = self@.take(i + 1);
                assert(next.drop_last() =~= self@.take(i as int));
                assert(next.last() == self@[i as int]);
                if i == 0 {
                    assert(text@ =~= next[0]);
                }
            }
            i += 1;
        }
        assert(self@.take(i as int) =~= self@);
        text
    }

    /// Takes one command and goes by the room registry's rule.
    pub fn run(&mut self, command: RoomMessage) -> (actions: Vec<RoomAction>)
        ensures
            (final(self)@, actions.deep_view()) == registry_step(old(self)@, command@),
            old(self)@.no_duplicates() ==> final(self)@.no_duplicates(),
    {
        let known = self.has_room(&command.room_name);
        match &command.message {
            RoomInternal::NewRoom => {
                let RoomMessage { from_user, room_name, message } = command;
                if known {
                    let error = CommonError::RoomExists(room_name);
                    one(Self::notify_user(from_user, ServerInternal::Error(error.to_string())))
                } else {
                    let mut told = String::from_str("You created room: ");
                    told.append(room_name.room_name());
                    let mut published = String::from_str("Room ");
                    published.append(room_name.room_name());
                    published.append(" created");
                    self.room_manager.push(room_name.clone());
                    let mut actions: Vec<RoomAction> = Vec::new();
                    actions.push(RoomAction::Spawn(room_name));
                    actions.push(
                        Self::notify_user(from_user.clone(), ServerInternal::ServerMessage(told)),
                    );
                    actions.push(
                        RoomAction::Broadcast(
                            ServerMessage {
                                from_user,
                                content: ServerInternal::ServerMessage(published),
                            },
                        ),
                    );
                    proof {
                        assert(final(self)@ =~= old(self)@.push(command@.room_name));
                        assert(actions.deep_view() =~= registry_step(old(self)@, command@).1);
                    }
                    actions
                }
            },
            RoomInternal::ListRooms => {
                let mut text = String::from_str("Rooms: [");
                let rooms = self.list_rooms();
                text.append(rooms.as_str());
                text.append("]");
                one(Self::notify_user(command.from_user, ServerInternal::ServerMessage(text)))
            },
            _ => {
                if known {
                    one(RoomAction::Forward(command))
                } else {
                    let RoomMessage { from_user, room_name, message } = command;
                    let error = CommonError::RoomNotFound(room_name);
                    one(Self::notify_user(from_user, ServerInternal::Error(error.to_string())))
                }
            },
        }
    }

    /// The action that brings `content` to the mailbox of `from_user`.
    pub fn notify_user(from_user: UserName, content: ServerInternal) -> (action: RoomAction)
        ensures
            action@ == (RoomActionView::Notify {
                user: from_user@,
                message: ServerMessageView { from_user: from_user@, content: content@ },
            }),
    {
        RoomAction::Notify {
            user: from_user.clone(),
            message: ServerMessage { from_user, content },
        }
    }
}

} // verus!
