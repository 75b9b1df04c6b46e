use crate::common::UserName;
use vstd::prelude::*;

verus! {

/// A command for the user registry, with the user it is about.
#[derive(Debug, PartialEq, Eq)]
pub struct UserMessage {
    pub from_user: UserName,
    pub message: UserInternal,
}

/// What a user command asks for. `NewUser` and `GetUser` are answered to the
/// one who asked; the others act on mailboxes and on the broadcast channel.
#[derive(Debug, PartialEq, Eq)]
pub enum UserInternal {
    NewUser,
    PrivateMessage { to_user: UserName, content: String },
    DisconnectUser,
    Ping(u16),
    GetUser,
    ListUsers,
}

/// Mathematical value of what a user command asks for.
pub ghost enum UserInternalView {
    NewUser,
    PrivateMessage { to_user: Seq<char>, content: Seq<char> },
    DisconnectUser,
    Ping(u16),
    GetUser,
    ListUsers,
}

/// Mathematical value of a user command.
pub ghost struct UserMessageView {
    pub from_user: Seq<char>,
    pub message: UserInternalView,
}

impl View for UserInternal {
    type V = UserInternalView;

    open spec fn view(&self) -> UserInternalView {
        match self {
            UserInternal::NewUser => UserInternalView::NewUser,
            UserInternal::PrivateMessage { to_user, content } => UserInternalView::PrivateMessage {
                to_user: to_user@,
                content: content@,
            },
            UserInternal::DisconnectUser => UserInternalView::DisconnectUser,
            UserInternal::Ping(nonce) => UserInternalView::Ping(*nonce),
            UserInternal::GetUser => UserInternalView::GetUser,
            UserInternal::ListUsers => UserInternalView::ListUsers,
        }
    }
}

impl Clone for UserInternal {
    fn clone(&self) -> (copy: Self)
        ensures
            copy@ == self@,
    {
        match self {
            UserInternal::NewUser => UserInternal::NewUser,
            UserInternal::PrivateMessage { to_user, content } => UserInternal::PrivateMessage {
                to_user: to_user.clone(),
                content: content.clone(),
            },
            UserInternal::DisconnectUser => UserInternal::DisconnectUser,
            UserInternal::Ping(nonce) => UserInternal::Ping(*nonce),
            UserInternal::GetUser => UserInternal::GetUser,
            UserInternal::ListUsers => UserInternal::ListUsers,
        }
    }
}

impl View for UserMessage {
    type V = UserMessageView;

    open spec fn view(&self) -> UserMessageView {
        UserMessageView { from_user: self.from_user@, message: self.message@ }
    }
}

impl Clone for UserMessage {
    fn clone(&self) -> (copy: Self)
        ensures
            copy@ == self@,
    {
        UserMessage { from_user: self.from_user.clone(), message: self.message.clone() }
    }
}

} // verus!
