use super::processor::{client_route, RouteView};
use super::style::{green, painted_green};
use crate::common::messages::{
    ClientMessageView, ServerInternal, ServerInternalView, ServerMessage, ServerMessageView,
    UserInternal, UserInternalView, UserMessage, UserMessageView,
};
use crate::common::{
    lemma_mailboxes_are_private, lemma_with_user_is_sound, lemma_without_user_is_sound, names_of,
    CommonError,
    CommonErrorView, Mailbox, User, UserManager, UserManagerView, UserName, UserView,
};
use vstd::prelude::*;
use vstd::string::StringExecFns;

verus! {

/// What the user registry asks of its surroundings after a command.
#[derive(Debug, PartialEq, Eq)]
pub enum UserAction {
    /// The answer to the session that asked to be admitted.
    ReplyNewUser(Result<User, CommonError>),
    /// The answer to the one who asked for a session record.
    ReplyUser(Result<User, CommonError>),
    /// Publish on the global broadcast channel.
    Broadcast(ServerMessage),
    /// Put into one private mailbox.
    Deliver { to: Mailbox, message: ServerMessage },
}

/// Mathematical value of a registry action.
pub ghost enum UserActionView {
    ReplyNewUser(Result<UserView, CommonErrorView>),
    ReplyUser(Result<UserView, CommonErrorView>),
    Broadcast(ServerMessageView),
    Deliver { to: Mailbox, message: ServerMessageView },
}

/// Mathematical value of an answer that holds a session record.
pub open spec fn reply_view(reply: Result<User, CommonError>) -> Result<UserView, CommonErrorView> {
    match reply {
        Ok(user) => Ok(user@),
        Err(e) => Err(e@),
    }
}

impl View for UserAction {
    type V = UserActionView;

    open spec fn view(&self) -> UserActionView {
        match self {
            UserAction::ReplyNewUser(reply) => UserActionView::ReplyNewUser(reply_view(*reply)),
            UserAction::ReplyUser(reply) => UserActionView::ReplyUser(reply_view(*reply)),
            UserAction::Broadcast(message) => UserActionView::Broadcast(message@),
            UserAction::Deliver { to, message } => UserActionView::Deliver {
                to: *to,
                message: message@,
            },
        }
    }
}

impl DeepView for UserAction {
    type V = UserActionView;

    open spec fn deep_view(&self) -> UserActionView {
        self@
    }
}

/// A message of the server in the name of `from_user`.
pub open spec fn notice(from_user: Seq<char>, content: ServerInternalView) -> ServerMessageView {
    ServerMessageView { from_user, content }
}

/// The registry's rule: what a command makes of the set of connected users,
/// and what it has the surroundings do, in order. `styled` is the name of the
/// command's user as it is written into the notice that welcomes a new user.
///
/// - A new user is refused where the name is taken, and the registry stays
///   as it is. Else the user is admitted with a fresh mailbox, gets the
///   record as the answer, and the notice that the user joined is published.
/// - A user who disconnects leaves the registry, and the notice is published;
///   for a name that is not registered nothing happens.
/// - A request for a record is answered with the record, or with the error
///   that the user does not exist.
/// - A private message goes to the mailbox of its recipient. To oneself, or
///   to a name that is not registered, it becomes an error notice in the
///   sender's mailbox.
/// - A ping is answered with its nonce, and the list of users with all
///   names, into the mailbox of the user who asked.
pub open spec fn user_step(
    state: UserManagerView,
    command: UserMessageView,
    styled: Seq<char>,
) -> (UserManagerView, Seq<UserActionView>) {
    let from = command.from_user;
    match command.message {
        UserInternalView::NewUser => {
            if state.has(from) {
                (state, seq![UserActionView::ReplyNewUser(Err(CommonErrorView::UserExists(from)))])
            } else {
                (
                    state.with_user(from),
                    seq![
                        UserActionView::ReplyNewUser(
                            Ok(UserView { name: from, mailbox: state.fresh_mailbox() }),
                        ),
                        UserActionView::Broadcast(
                            notice(
                                from,
                                ServerInternalView::ServerMessage(styled + " joined the server"@),
                            ),
                        ),
                    ],
                )
            }
        },
        UserInternalView::GetUser => {
            if state.has(from) {
                (state, seq![UserActionView::ReplyUser(Ok(state.user(from)))])
            } else {
                (state, seq![UserActionView::ReplyUser(Err(CommonErrorView::UserNotExists(from)))])
            }
        },
        UserInternalView::DisconnectUser => {
            if state.has(from) {
                (
                    state.without_user(from),
                    seq![
                        UserActionView::Broadcast(
                            notice(from, ServerInternalView::ServerMessage(from + " disconnected"@)),
                        ),
                    ],
                )
            } else {
                (state, Seq::empty())
            }
        },
        UserInternalView::PrivateMessage { to_user, content } => {
            if state.has(to_user) {
                if to_user == from {
                    (
                        state,
                        seq![
                            UserActionView::Deliver {
                                to: state.user(to_user).mailbox,
                                message: notice(
                                    from,
                                    ServerInternalView::Error(
                                        "You can't send a private message to yourself"@,
                                    ),
                                ),
                            },
                        ],
                    )
                } else {
                    (
                        state,
                        seq![
                            UserActionView::Deliver {
                                to: state.user(to_user).mailbox,
                                message: notice(
                                    from,
                                    ServerInternalView::PrivateMessage { from_user: from, content },
                                ),
                            },
                        ],
                    )
                }
            } else if state.has(from) {
                (
                    state,
                    seq![
                        UserActionView::Deliver {
                            to: state.user(from).mailbox,
                            message: notice(
                                from,
                                ServerInternalView::Error("User not found: "@ + to_user),
                            ),
                        },
                    ],
                )
            } else {
                (state, Seq::empty())
            }
        },
        UserInternalView::Ping(nonce) => {
            if state.has(from) {
                (
                    state,
                    seq![
                        UserActionView::Deliver {
                            to: state.user(from).mailbox,
                            message: notice(from, ServerInternalView::Pong(nonce)),
                        },
                    ],
                )
            } else {
                (state, Seq::empty())
            }
        },
        UserInternalView::ListUsers => {
            if state.has(from) {
                (
                    state,
                    seq![
                        UserActionView::Deliver {
                            to: state.user(from).mailbox,
                            message: notice(
                                from,
                                ServerInternalView::UserList { users: names_of(state.users) },
                            ),
                        },
                    ],
                )
            } else {
                (state, Seq::empty())
            }
        },
    }
}

/// The user registry: the one owner of the set of connected users. It takes
/// its commands one at a time, in the order in which they arrive.
pub struct UserProcessor {
    user_manager: UserManager,
}

impl View for UserProcessor {
    type V = UserManagerView;

    closed spec fn view(&self) -> UserManagerView {
        self.user_manager@
    }
}

/// The list that holds `action` alone.
fn one(action: UserAction) -> (actions: Vec<UserAction>)
    ensures
        actions.deep_view() == seq![action@],
{
    let mut actions: Vec<UserAction> = Vec::new();
    actions.push(action);
    assert(actions.deep_view() =~= seq![action@]);
    actions
}

/// The list that holds no action.
fn none() -> (actions: Vec<UserAction>)
    ensures
        actions.deep_view() == Seq::<UserActionView>::empty(),
{
    let actions: Vec<UserAction> = Vec::new();
    assert(actions.deep_view() =~= Seq::<UserActionView>::empty());
    actions
}

impl UserProcessor {
    /// A registry without users.
    pub fn new() -> (processor: Self)
        ensures
            processor@.wf(),
            processor@.users.len() == 0,
            processor@.next_mailbox == 0,
    {
        Self { user_manager: UserManager::default() }
    }

    /// Whether the registry can still give a new user a fresh mailbox.
    pub fn has_free_mailbox(&self) -> (free: bool)
        ensures
            free == (self@.next_mailbox < u64::MAX),
    {
        self.user_manager.has_free_mailbox()
    }

    /// Whether a session holds the name `user_name`.
    pub fn has_user(&self, user_name: &UserName) -> (held: bool)
        ensures
            held == self@.has(user_name@),
    {
        match self.user_manager.get_user(user_name) {
            Ok(_) => true,
            Err(_) => false,
        }
    }

    /// Takes one command: paints the user's name for the notice that a new
    /// user gets, and goes by the registry's rule.
    pub fn run(&mut self, user_message: UserMessage) -> (actions: Vec<UserAction>)
        requires
            old(self)@.wf(),
            user_message@.message is NewUser && !old(self)@.has(user_message@.from_user) ==> old(
                self,
            )@.next_mailbox < u64::MAX,
        ensures
            final(self)@.wf(),
            exists|styled: Seq<char>|
                painted_green(user_message@.from_user, styled) && (final(self)@, actions.deep_view())
                    == #[trigger] user_step(old(self)@, user_message@, styled),
    {
        let styled = green(user_message.from_user.user_name());
        let actions = self.process_user_message(user_message, styled.as_str());
        assert((final(self)@, actions.deep_view()) == user_step(
            old(self)@,
            user_message@,
            styled@,
        ));
        actions
    }

    /// Takes one command and goes by the registry's rule, with `styled` as the
    /// painted name of the command's user.
    pub fn process_user_message(&mut self, user_message: UserMessage, styled: &str) -> (actions:
        Vec<UserAction>)
        requires
            old(self)@.wf(),
            user_message@.message is NewUser && !old(self)@.has(user_message@.from_user) ==> old(
                self,
            )@.next_mailbox < u64::MAX,
        ensures
            final(self)@.wf(),
            (final(self)@, actions.deep_view()) == user_step(old(self)@, user_message@, styled@),
    {
        let UserMessage { from_user, message } = user_message;
        match message {
            UserInternal::NewUser => {
                match self.user_manager.add_new_user(from_user.clone()) {
                    Ok(user) => {
                        let mut text = String::from_str(styled);
                        text.append(" joined the server");
                        let mut actions: Vec<UserAction> = Vec::new();
                        actions.push(UserAction::ReplyNewUser(Ok(user)));
                        actions.push(
                            UserAction::Broadcast(
                                ServerMessage {
                                    from_user,
                                    content: ServerInternal::ServerMessage(text),
                                },
                            ),
                        );
                        assert(actions.deep_view() =~= user_step(
                            old(self)@,
                            user_message@,
                            styled@,
                        ).1);
                        actions
                    },
                    Err(e) => one(UserAction::ReplyNewUser(Err(e))),
                }
            },
            UserInternal::GetUser => {
                match self.user_manager.get_user(&from_user) {
                    Ok(user) => one(UserAction::ReplyUser(Ok(user.clone()))),
                    Err(e) => one(UserAction::ReplyUser(Err(e))),
                }
            },
            UserInternal::DisconnectUser => {
                match self.user_manager.remove_user(&from_user) {
                    Ok(_) => {
                        let mut text = String::from_str(from_user.user_name());
                        text.append(" disconnected");
                        one(
                            UserAction::Broadcast(
                                ServerMessage {
                                    from_user,
                                    content: ServerInternal::ServerMessage(text),
                                },
                            ),
                        )
                    },
                    Err(_) => none(),
                }
            },
            UserInternal::PrivateMessage { to_user, content } => {
                match self.user_manager.get_user(&to_user) {
                    Ok(user) => {
                        let to = user.user_tx();
                        if to_user == from_user {
                            one(
                                UserAction::Deliver {
                                    to,
                                    message: ServerMessage {
                                        from_user,
                                        content: ServerInternal::Error(
                                            String::from_str(
                                                "You can't send a private message to yourself",
                                            ),
                                        ),
                                    },
                                },
                            )
                        } else {
                            one(
                                UserAction::Deliver {
                                    to,
                                    message: ServerMessage {
                                        from_user: from_user.clone(),
                                        content: ServerInternal::PrivateMessage {
                                            from_user,
                                            content,
                                        },
                                    },
                                },
                            )
                        }
                    },
                    Err(_) => {
                        match self.user_manager.get_user(&from_user) {
                            Ok(user) => {
                                let to = user.user_tx();
                                let mut text = String::from_str("User not found: ");
                                text.append(to_user.user_name());
                                one(
                                    UserAction::Deliver {
                                        to,
                                        message: ServerMessage {
                                            from_user,
                                            content: ServerInternal::Error(text),
                                        },
                                    },
                                )
                            },
                            Err(_) => none(),
                        }
                    },
                }
            },
            UserInternal::Ping(nonce) => {
                match self.user_manager.get_user(&from_user) {
                    Ok(user) => {
                        let to = user.user_tx();
                        one(
                            UserAction::Deliver {
                                to,
                                message: ServerMessage {
                                    from_user,
                                    content: ServerInternal::Pong(nonce),
                                },
                            },
                        )
                    },
                    Err(_) => none(),
                }
            },
            UserInternal::ListUsers => {
                let users = self.user_manager.list_users();
                match self.user_manager.get_user(&from_user) {
                    Ok(user) => {
                        let to = user.user_tx();
                        one(
                            UserAction::Deliver {
                                to,
                                message: ServerMessage {
                                    from_user,
                                    content: ServerInternal::UserList { users },
                                },
                            },
                        )
                    },
                    Err(_) => none(),
                }
            },
        }
    }
}

/// The command of `from_user` that asks for `message`.
pub open spec fn command(from_user: Seq<char>, message: UserInternalView) -> UserMessageView {
    UserMessageView { from_user, message }
}

/// The registry stays sound: after every command no two sessions hold one
/// name or one mailbox, and the next mailbox is fresh.
pub proof fn lemma_step_keeps_registry_sound(
    state: UserManagerView,
    message: UserMessageView,
    styled: Seq<char>,
)
    requires
        state.wf(),
        message.message is NewUser && !state.has(message.from_user) ==> state.next_mailbox
            < u64::MAX,
    ensures
        user_step(state, message, styled).0.wf(),
{
    let name = message.from_user;
    match message.message {
        UserInternalView::NewUser => {
            if !state.has(name) {
                lemma_with_user_is_sound(state, name);
            }
        },
        UserInternalView::DisconnectUser => {
            lemma_without_user_is_sound(state, name);
        },
        _ => {},
    }
}

/// A name is held by one session at a time: a second session that asks for a
/// name in use is refused with the error that the user exists, whether the
/// registry has a mailbox handle left or not. It gets no mailbox, nothing is
/// published, and the registry stays as it was; so the session that holds
/// the name is not touched, and what is sent to the name afterwards, such as
/// the answer to a ping, still goes into the mailbox of that session.
pub proof fn lemma_name_in_use_is_refused(
    state: UserManagerView,
    name: Seq<char>,
    nonce: u16,
    styled: Seq<char>,
)
    requires
        state.has(name),
    ensures
        user_step(state, command(name, UserInternalView::NewUser), styled) == (
            state,
            seq![UserActionView::ReplyNewUser(Err(CommonErrorView::UserExists(name)))],
        ),
        ({
            let after = user_step(state, command(name, UserInternalView::NewUser), styled).0;
            &&& after.has(name)
            &&& after.user(name) == state.user(name)
            &&& user_step(after, command(name, UserInternalView::Ping(nonce)), styled) == (
                state,
                seq![
                    UserActionView::Deliver {
                        to: state.user(name).mailbox,
                        message: notice(name, ServerInternalView::Pong(nonce)),
                    },
                ],
            )
        }),
{
}

/// A private message to a name that nobody holds gives the sender one
/// error notice and is delivered to nobody.
pub proof fn lemma_private_message_to_unknown_user(
    state: UserManagerView,
    from: Seq<char>,
    to: Seq<char>,
    content: Seq<char>,
    styled: Seq<char>,
)
    requires
        state.has(from),
        !state.has(to),
    ensures
        user_step(
            state,
            command(from, UserInternalView::PrivateMessage { to_user: to, content }),
            styled,
        ) == (
            state,
            seq![
                UserActionView::Deliver {
                    to: state.user(from).mailbox,
                    message: notice(from, ServerInternalView::Error("User not found: "@ + to)),
                },
            ],
        ),
{
}

/// A private message to oneself gives the sender one error notice, and no
/// private message is delivered.
pub proof fn lemma_private_message_to_oneself(
    state: UserManagerView,
    from: Seq<char>,
    content: Seq<char>,
    styled: Seq<char>,
)
    requires
        state.has(from),
    ensures
        user_step(
            state,
            command(from, UserInternalView::PrivateMessage { to_user: from, content }),
            styled,
        ) == (
            state,
            seq![
                UserActionView::Deliver {
                    to: state.user(from).mailbox,
                    message: notice(
                        from,
                        ServerInternalView::Error("You can't send a private message to yourself"@),
                    ),
                },
            ],
        ),
{
}

/// A ping of a connected user comes back as one pong with the same nonce,
/// into the mailbox of that user and into no other: the router hands the
/// ping to the registry, the registry's only action is that delivery, and
/// no other user has that mailbox.
pub proof fn lemma_ping_is_answered(
    state: UserManagerView,
    from: Seq<char>,
    nonce: u16,
    styled: Seq<char>,
)
    requires
        state.wf(),
        state.has(from),
    ensures
        forall|other: Seq<char>|
            state.has(other) && other != from ==> (#[trigger] state.user(other)).mailbox
                != state.user(from).mailbox,
        client_route(from, ClientMessageView::Ping(nonce)) == RouteView::ToUsers(
            command(from, UserInternalView::Ping(nonce)),
        ),
        user_step(state, command(from, UserInternalView::Ping(nonce)), styled) == (
            state,
            seq![
                UserActionView::Deliver {
                    to: state.user(from).mailbox,
                    message: notice(from, ServerInternalView::Pong(nonce)),
                },
            ],
        ),
{
    assert forall|other: Seq<char>| state.has(other) && other != from implies (
    #[trigger] state.user(other)).mailbox != state.user(from).mailbox by {
        lemma_mailboxes_are_private(state, other, from);
    }
}

/// To disconnect a name that nobody holds changes nothing and has nothing
/// done; so a second disconnect of a user has no effect.
pub proof fn lemma_disconnect_is_idempotent(
    state: UserManagerView,
    name: Seq<char>,
    styled: Seq<char>,
)
    requires
        state.wf(),
    ensures
        !state.has(name) ==> user_step(
            state,
            command(name, UserInternalView::DisconnectUser),
            styled,
        ) == (state, Seq::<UserActionView>::empty()),
        ({
            let once = user_step(state, command(name, UserInternalView::DisconnectUser), styled).0;
            &&& !once.has(name)
            &&& user_step(once, command(name, UserInternalView::DisconnectUser), styled) == (
                once,
                Seq::<UserActionView>::empty(),
            )
        }),
{
    lemma_without_user_is_sound(state, name);
}

} // verus!
