use super::error::{joined, CommonError, CommonErrorView};
use super::messages::{
    RoomInternal, RoomInternalView, RoomMessage, RoomMessageView, ServerInternal,
    ServerInternalView, ServerMessage, ServerMessageView,
};
use super::user::{
    distinct_names, find_user, has_name, lemma_remove_keeps_distinct, names_of, names_of_users,
    position_of, Mailbox, User, UserName, UserView,
};
use vstd::prelude::*;
use vstd::std_specs::cmp::PartialEqSpecImpl;
use vstd::std_specs::convert::FromSpecImpl;
use vstd::string::StringExecFns;

verus! {

/// Unique identity of a room: a case-sensitive string compared by value.
#[derive(Debug, Hash)]
pub struct RoomName {
    room_name: String,
}

impl View for RoomName {
    type V = Seq<char>;

    closed spec fn view(&self) -> Seq<char> {
        self.room_name@
    }
}

impl DeepView for RoomName {
    type V = Seq<char>;

    open spec fn deep_view(&self) -> Seq<char> {
        self@
    }
}

impl RoomName {
    pub fn new(room_name: &str) -> (name: Self)
        ensures
            name@ == room_name@,
    {
        Self { room_name: String::from_str(room_name) }
    }

    pub fn room_name(&self) -> (text: &str)
        ensures
            text@ == self@,
    {
        self.room_name.as_str()
    }
}

impl Clone for RoomName {
    fn clone(&self) -> (copy: Self)
        ensures
            copy@ == self@,
    {
        Self { room_name: self.room_name.clone() }
    }
}

impl PartialEq for RoomName {
    fn eq(&self, other: &Self) -> (equal: bool) {
        self.room_name == other.room_name
    }
}

impl Eq for RoomName {}

impl PartialEqSpecImpl for RoomName {
    open spec fn obeys_eq_spec() -> bool {
        true
    }

    open spec fn eq_spec(&self, other: &Self) -> bool {
        self@ == other@
    }
}

impl From<String> for RoomName {
    fn from(name: String) -> (room: Self)
        ensures
            room@ == name@,
    {
        Self { room_name: name }
    }
}

impl FromSpecImpl<String> for RoomName {
    open spec fn obeys_from_spec() -> bool {
        true
    }

    closed spec fn from_spec(name: String) -> Self {
        RoomName { room_name: name }
    }
}

/// One message on its way into one private mailbox.
#[derive(Debug, PartialEq, Eq)]
pub struct Delivery {
    pub to: Mailbox,
    pub message: ServerMessage,
}

/// Mathematical value of a delivery.
pub ghost struct DeliveryView {
    pub to: Mailbox,
    pub message: ServerMessageView,
}

impl View for Delivery {
    type V = DeliveryView;

    open spec fn view(&self) -> DeliveryView {
        DeliveryView { to: self.to, message: self.message@ }
    }
}

impl DeepView for Delivery {
    type V = DeliveryView;

    open spec fn deep_view(&self) -> DeliveryView {
        self@
    }
}

/// Mathematical value of a room: its name and its members, in the order in
/// which they joined.
pub ghost struct RoomView {
    pub name: Seq<char>,
    pub users: Seq<UserView>,
}

/// The message that a room sends to a member: `content`, said by `from` in `room`.
pub open spec fn room_message(
    room: Seq<char>,
    from: Seq<char>,
    content: Seq<char>,
) -> ServerMessageView {
    ServerMessageView {
        from_user: from,
        content: ServerInternalView::RoomMessage { room, from, content },
    }
}

/// One delivery of the same message for each of `users`, in their order.
pub open spec fn fan_out(users: Seq<UserView>, message: ServerMessageView) -> Seq<DeliveryView> {
    Seq::new(users.len(), |i: int| DeliveryView { to: users[i].mailbox, message })
}

/// The notice of an error, in the name of `from_user`, for the mailbox of `user`.
pub open spec fn error_reply(user: UserView, from_user: Seq<char>, error: CommonErrorView) -> Seq<
    DeliveryView,
> {
    seq![
        DeliveryView {
            to: user.mailbox,
            message: ServerMessageView {
                from_user,
                content: ServerInternalView::Error(error.text()),
            },
        },
    ]
}

/// What a step of a room gives: the room afterwards and the deliveries to
/// make, or the error that ends the step with the room unchanged.
pub ghost enum RoomStep {
    Done { room: RoomView, deliveries: Seq<DeliveryView> },
    Failed(CommonErrorView),
}

/// The room's rule. `requester` is what the user registry answered when it
/// was asked for the record of the command's user.
///
/// - Joining, leaving and listing need the record: where the registry knows
///   no such user, the step fails with the registry's error.
/// - A user who joins becomes the last member, and every member, the new one
///   too, is told so. A user who is a member already gets the error instead.
/// - A user who leaves is no member any more, and the members who remain are
///   told so. A user who is no member gets the error instead.
/// - The list of members goes to the user who asked, member or not.
/// - A message to the room goes to every member and to nobody else. In a
///   room without members the user who sent it, if the registry knows it,
///   gets the error instead.
/// - The commands that create a room or list the rooms belong to the room
///   registry: a room does nothing on them.
pub open spec fn room_step(
    room: RoomView,
    command: RoomMessageView,
    requester: Result<UserView, CommonErrorView>,
) -> RoomStep {
    match command.message {
        RoomInternalView::NewRoom | RoomInternalView::ListRooms => RoomStep::Done {
            room,
            deliveries: Seq::empty(),
        },
        RoomInternalView::JoinRoom => match requester {
            Err(e) => RoomStep::Failed(e),
            Ok(user) => if has_name(room.users, user.name) {
                RoomStep::Done {
                    room,
                    deliveries: error_reply(
                        user,
                        command.from_user,
                        CommonErrorView::UserInRoom(user),
                    ),
                }
            } else {
                RoomStep::Done {
                    room: RoomView { name: room.name, users: room.users.push(user) },
                    deliveries: fan_out(
                        room.users.push(user),
                        room_message(room.name, user.name, user.name + " joined the room"@),
                    ),
                }
            },
        },
        RoomInternalView::LeaveRoom => match requester {
            Err(e) => RoomStep::Failed(e),
            Ok(user) => if has_name(room.users, user.name) {
                RoomStep::Done {
                    room: RoomView {
                        name: room.name,
                        users: room.users.remove(position_of(room.users, user.name)),
                    },
                    deliveries: fan_out(
                        room.users.remove(position_of(room.users, user.name)),
                        room_message(room.name, command.from_user, user.name + " left the room"@),
                    ),
                }
            } else {
                RoomStep::Done {
                    room,
                    deliveries: error_reply(
                        user,
                        command.from_user,
                        CommonErrorView::UserNotInRoom(user),
                    ),
                }
            },
        },
        RoomInternalView::ListUsers => match requester {
            Err(e) => RoomStep::Failed(e),
            Ok(user) => RoomStep::Done {
                room,
                deliveries: seq![
                    DeliveryView {
                        to: user.mailbox,
                        message: ServerMessageView {
                            from_user: command.from_user,
                            content: ServerInternalView::RoomUsers {
                                room: command.room_name,
                                users: names_of(room.users),
                            },
                        },
                    },
                ],
            },
        },
        RoomInternalView::RoomMessage(content) => if room.users.len() == 0 {
            match requester {
                Ok(user) => RoomStep::Done {
                    room,
                    deliveries: error_reply(user, command.from_user, CommonErrorView::NoUsersInRoom),
                },
                Err(_) => RoomStep::Done { room, deliveries: Seq::empty() },
            }
        } else {
            RoomStep::Done {
                room,
                deliveries: fan_out(
                    room.users,
                    room_message(room.name, command.from_user, content),
                ),
            }
        },
    }
}

/// What the user who sent a message to a room is told once the deliveries
/// were tried: nothing if all arrived, else the error that the message was
/// not sent to everybody; the members that could be reached have it.
pub open spec fn report(
    from_user: Seq<char>,
    requester: Result<UserView, CommonErrorView>,
    failures: nat,
) -> Seq<DeliveryView> {
    match requester {
        Ok(user) => if failures > 0 {
            error_reply(user, from_user, CommonErrorView::RoomMessageNotSent)
        } else {
            Seq::empty()
        },
        Err(_) => Seq::empty(),
    }
}

/// A room: the one owner of its membership. It takes its commands one at a
/// time, in the order in which they arrive.
pub struct RoomManager {
    room_name: RoomName,
    users: Vec<User>,
}

impl View for RoomManager {
    type V = RoomView;

    closed spec fn view(&self) -> RoomView {
        RoomView { name: self.room_name@, users: self.users.deep_view() }
    }
}

/// The list that holds the notice of `error` for `user`.
fn error_for(user: &User, from_user: UserName, error: &CommonError) -> (deliveries: Vec<Delivery>)
    ensures
        deliveries.deep_view() == error_reply(user@, from_user@, error@),
{
    let mut deliveries: Vec<Delivery> = Vec::new();
    deliveries.push(
        Delivery {
            to: user.user_tx(),
            message: ServerMessage { from_user, content: ServerInternal::Error(error.to_string()) },
        },
    );
    assert(deliveries.deep_view() =~= error_reply(user@, from_user@, error@));
    deliveries
}

/// The list that holds no delivery.
fn no_delivery() -> (deliveries: Vec<Delivery>)
    ensures
        deliveries.deep_view() == Seq::<DeliveryView>::empty(),
{
    let deliveries: Vec<Delivery> = Vec::new();
    assert(deliveries.deep_view() =~= Seq::<DeliveryView>::empty());
    deliveries
}

impl RoomManager {
    /// A room without members.
    pub fn new(room_name: RoomName) -> (room: Self)
        ensures
            room@ == (RoomView { name: room_name@, users: Seq::empty() }),
            distinct_names(room@.users),
    {
        let room = Self { room_name, users: Vec::new() };
        assert(room@.users =~= Seq::empty());
        room
    }

    /// Whether the room has a member.
    pub fn users_in_room(&self) -> (any: bool)
        ensures
            any == (self@.users.len() > 0),
    {
        self.users.len() > 0
    }

    pub fn room_name(&self) -> (name: &RoomName)
        ensures
            name@ == self@.name,
    {
        &self.room_name
    }

    /// The names of the members, in the order in which they joined.
    pub fn list_users(&self) -> (names: Vec<UserName>)
        ensures
            names.deep_view() == names_of(self@.users),
    {
        names_of_users(&self.users)
    }

    /// Makes `user` the last member, unless a member has that name.
    pub fn add_user(&mut self, user: User) -> (added: Result<(), CommonError>)
        requires
            distinct_names(old(self)@.users),
        ensures
            distinct_names(final(self)@.users),
            final(self)@.name == old(self)@.name,
            match added {
                Ok(()) => !has_name(old(self)@.users, user@.name) && final(self)@.users == old(
                    self,
                )@.users.push(user@),
                Err(e) => {
                    &&& has_name(old(self)@.users, user@.name)
                    &&& e@ == CommonErrorView::UserInRoom(user@)
                    &&& final(self)@ == old(self)@
                },
            },
    {
        match find_user(&self.users, user.user_name()) {
            Some(_) => Err(CommonError::UserInRoom(user)),
            None => {
                self.users.push(user);
                proof {
                    assert(final(self)@.users =~= old(self)@.users.push(user@));
                }
                Ok(())
            },
        }
    }

    /// Takes the member with the name of `user` out of the room.
    pub fn remove_user(&mut self, user: &User) -> (removed: Result<(), CommonError>)
        requires
            distinct_names(old(self)@.users),
        ensures
            distinct_names(final(self)@.users),
            final(self)@.name == old(self)@.name,
            match removed {
                Ok(()) => {
                    &&& has_name(old(self)@.users, user@.name)
                    &&& final(self)@.users == old(self)@.users.remove(
                        position_of(old(self)@.users, user@.name),
                    )
                    &&& !has_name(final(self)@.users, user@.name)
                },
                Err(e) => {
                    &&& !has_name(old(self)@.users, user@.name)
                    &&& e@ == CommonErrorView::UserNotInRoom(user@)
                    &&& final(self)@ == old(self)@
                },
            },
    {
        match find_user(&self.users, user.user_name()) {
            Some(i) => {
                self.users.remove(i);
                proof {
                    assert(final(self)@.users =~= old(self)@.users.remove(i as int));
                    lemma_remove_keeps_distinct(old(self)@.users, user@.name);
                }
                Ok(())
            },
            None => Err(CommonError::UserNotInRoom(user.clone())),
        }
    }

    /// The deliveries that bring `message`, said by `from_user`, to every
    /// member: one for each member and none for anybody else. A room without
    /// members has nobody to send to.
    pub fn send_room_message(&self, from_user: &UserName, message: &str) -> (sent: Result<
        Vec<Delivery>,
        CommonError,
    >)
        ensures
            match sent {
                Ok(deliveries) => self@.users.len() > 0 && deliveries.deep_view() == fan_out(
                    self@.users,
                    room_message(self@.name, from_user@, message@),
                ),
                Err(e) => self@.users.len() == 0 && e@ == CommonErrorView::NoUsersInRoom,
            },
    {
        if self.users.len() == 0 {
            return Err(CommonError::NoUsersInRoom);
        }
        Ok(self.deliveries(from_user, message))
    }

    /// One delivery of the message for each member.
    fn deliveries(&self, from_user: &UserName, message: &str) -> (deliveries: Vec<Delivery>)
        ensures
            deliveries.deep_view() == fan_out(
                self@.users,
                room_message(self@.name, from_user@, message@),
            ),
    {
        let ghost expected = room_message(self@.name, from_user@, message@);
        let mut deliveries: Vec<Delivery> = Vec::new();
        let mut i: usize = 0;
        while i < self.users.len()
            invariant
                i <= self.users.len(),
                deliveries.len() == i,
                expected == room_message(self@.name, from_user@, message@),
                forall|j: int|
                    0 <= j < i ==> (#[trigger] deliveries[j])@ == (DeliveryView {
                        to: self.users[j]@.mailbox,
                        message: expected,
                    }),
            decreases self.users.len() - i,
        {
            deliveries.push(
                Delivery {
                    to: self.users[i].user_tx(),
                    message: ServerMessage {
                        from_user: from_user.clone(),
                        content: ServerInternal::RoomMessage {
                            room: self.room_name.clone(),
                            from: from_user.clone(),
                            content: String::from_str(message),
                        },
                    },
                },
            );
            i += 1;
        }
        assert(deliveries.deep_view() =~= fan_out(self@.users, expected));
        deliveries
    }

    /// Whether the room needs the record of the command's user before it can
    /// take the command.
    pub fn needs_requester(message: &RoomInternal) -> (needed: bool)
        ensures
            needed == !(message@ is NewRoom || message@ is ListRooms),
    {
        match message {
            RoomInternal::NewRoom | RoomInternal::ListRooms => false,
            _ => true,
        }
    }

    /// Takes one command and goes by the room's rule. `requester` is the
    /// answer of the user registry for the command's user.
    pub fn run(&mut self, command: RoomMessage, requester: Result<User, CommonError>) -> (done:
        Result<Vec<Delivery>, CommonError>)
        requires
            distinct_names(old(self)@.users),
        ensures
            distinct_names(final(self)@.users),
            match done {
                Ok(deliveries) => room_step(old(self)@, command@, requester_view(requester))
                    == (RoomStep::Done { room: final(self)@, deliveries: deliveries.deep_view() }),
                Err(e) => final(self)@ == old(self)@ && room_step(
                    old(self)@,
                    command@,
                    requester_view(requester),
                ) == RoomStep::Failed(e@),
            },
    {
        let RoomMessage { from_user, room_name, message } = command;
        match message {
            RoomInternal::NewRoom | RoomInternal::ListRooms => Ok(no_delivery()),
            RoomInternal::JoinRoom => {
                let user = match requester {
                    Ok(user) => user,
                    Err(e) => {
                        return Err(e);
                    },
                };
                match self.add_user(user.clone()) {
                    Ok(()) => {
                        let text = joined(user.user_name().user_name(), " joined the room");
                        Ok(self.deliveries(user.user_name(), text.as_str()))
                    },
                    Err(e) => Ok(error_for(&user, from_user, &e)),
                }
            },
            RoomInternal::LeaveRoom => {
                let user = match requester {
                    Ok(user) => user,
                    Err(e) => {
                        return Err(e);
                    },
                };
                match self.remove_user(&user) {
                    Ok(()) => {
                        let text = joined(user.user_name().user_name(), " left the room");
                        Ok(self.deliveries(&from_user, text.as_str()))
                    },
                    Err(e) => Ok(error_for(&user, from_user, &e)),
                }
            },
            RoomInternal::ListUsers => {
                let user = match requester {
                    Ok(user) => user,
                    Err(e) => {
                        return Err(e);
                    },
                };
                let users = self.list_users();
                let mut deliveries: Vec<Delivery> = Vec::new();
                deliveries.push(
                    Delivery {
                        to: user.user_tx(),
                        message: ServerMessage {
                            from_user,
                            content: ServerInternal::RoomUsers { room: room_name, users },
                        },
                    },
                );
                assert(deliveries.deep_view() =~= seq![deliveries[0]@]);
                Ok(deliveries)
            },
            RoomInternal::RoomMessage(content) => {
                match self.send_room_message(&from_user, content.as_str()) {
                    Ok(deliveries) => Ok(deliveries),
                    Err(e) => match requester {
                        Ok(user) => Ok(error_for(&user, from_user, &e)),
                        Err(_) => Ok(no_delivery()),
                    },
                }
            },
        }
    }

    /// What the user who sent a message to the room is told once the
    /// deliveries were tried, `failures` of them without success.
    pub fn report(from_user: UserName, requester: &Result<User, CommonError>, failures: usize) -> (
    deliveries: Vec<Delivery>)
        ensures
            deliveries.deep_view() == report(
                from_user@,
                requester_view(*requester),
                failures as nat,
            ),
    {
        match requester {
            Ok(user) => if failures > 0 {
                error_for(user, from_user, &CommonError::RoomMessageNotSent)
            } else {
                no_delivery()
            },
            Err(_) => no_delivery(),
        }
    }
}

/// Mathematical value of the registry's answer to a request for a record.
pub open spec fn requester_view(requester: Result<User, CommonError>) -> Result<
    UserView,
    CommonErrorView,
> {
    match requester {
        Ok(user) => Ok(user@),
        Err(e) => Err(e@),
    }
}

/// A message to a room reaches the members of the room and nobody else:
/// there is one delivery for each member, into that member's mailbox, and a
/// mailbox that no member owns gets none.
pub proof fn lemma_room_message_stays_in_room(
    room: RoomView,
    command: RoomMessageView,
    requester: Result<UserView, CommonErrorView>,
    outside: Mailbox,
)
    requires
        command.message is RoomMessage,
        room.users.len() > 0,
        forall|i: int| 0 <= i < room.users.len() ==> (#[trigger] room.users[i]).mailbox != outside,
    ensures
        room_step(room, command, requester) is Done,
        ({
            let step = room_step(room, command, requester);
            let deliveries = step->deliveries;
            let message = room_message(room.name, command.from_user, command.message->RoomMessage_0);
            &&& step->room == room
            &&& deliveries.len() == room.users.len()
            &&& forall|i: int|
                0 <= i < deliveries.len() ==> (#[trigger] deliveries[i]) == (DeliveryView {
                    to: room.users[i].mailbox,
                    message,
                })
            &&& forall|i: int| 0 <= i < deliveries.len() ==> (#[trigger] deliveries[i]).to != outside
        }),
{
    let deliveries = room_step(room, command, requester)->deliveries;
    assert forall|i: int| 0 <= i < deliveries.len() implies (#[trigger] deliveries[i]).to
        != outside by {
        assert(deliveries[i].to == room.users[i].mailbox);
    }
}

/// A room keeps one record for each name, whatever command it takes.
pub proof fn lemma_room_keeps_names_unique(
    room: RoomView,
    command: RoomMessageView,
    requester: Result<UserView, CommonErrorView>,
)
    requires
        distinct_names(room.users),
        room_step(room, command, requester) is Done,
    ensures
        distinct_names(room_step(room, command, requester)->room.users),
{
    let after = room_step(room, command, requester)->room.users;
    match command.message {
        RoomInternalView::JoinRoom => {
            let user = requester->Ok_0;
            if !has_name(room.users, user.name) {
                assert forall|i: int, j: int|
                    0 <= i < after.len() && 0 <= j < after.len() && i != j implies (
                #[trigger] after[i]).name != (#[trigger] after[j]).name by {
                    if i < room.users.len() {
                        assert(after[i] == room.users[i]);
                    }
                    if j < room.users.len() {
                        assert(after[j] == room.users[j]);
                    }
                }
            }
        },
        RoomInternalView::LeaveRoom => {
            let user = requester->Ok_0;
            if has_name(room.users, user.name) {
                lemma_remove_keeps_distinct(room.users, user.name);
            }
        },
        _ => {},
    }
}

} // verus!
