use super::error::{ServerError, ServerErrorView};
use super::processor::client_route;
use super::style::{green, painted_green};
use crate::common::messages::{
    ClientMessage, ClientMessageView, Handshake, ProcessInternal, ProcessInternalView,
    ProcessMessage, ProcessMessageView, ServerInternal, ServerInternalView, ServerMessage,
    ServerMessageView, UserInternal, UserInternalView, UserMessage, UserMessageView,
};
use crate::common::{CommonError, CommonErrorView, User, UserName, UserView};
use crate::connection::ConnectionError;
use vstd::prelude::*;
use vstd::string::StringExecFns;

verus! {

/// The seconds that a connection has for its handshake.
pub const HANDSHAKE_TIMEOUT_SECS: u64 = 5;

/// Where a session stands.
#[derive(Debug, Clone, Copy, PartialEq, Eq, Hash, Structural)]
pub enum SessionState {
    /// The connection is not yet in the handler's hands.
    Connecting,
    /// The handshake is under way.
    Authenticating,
    /// The user is admitted: frames, broadcasts and the mailbox are served.
    Active,
    /// The session is over.
    Closed,
}

/// What a session asks of its surroundings.
#[derive(Debug, PartialEq, Eq)]
pub enum SessionAction {
    /// Hand the message to the command router.
    Submit(ProcessMessage),
    /// Write the content to the socket as one frame.
    Write(ServerInternal),
}

/// Mathematical value of a session's action.
pub ghost enum SessionActionView {
    Submit(ProcessMessageView),
    Write(ServerInternalView),
}

impl View for SessionAction {
    type V = SessionActionView;

    open spec fn view(&self) -> SessionActionView {
        match self {
            SessionAction::Submit(message) => SessionActionView::Submit(message@),
            SessionAction::Write(content) => SessionActionView::Write(content@),
        }
    }
}

impl DeepView for SessionAction {
    type V = SessionActionView;

    open spec fn deep_view(&self) -> SessionActionView {
        self@
    }
}

/// What happens to an active session: a frame of the client was read, or
/// reading failed; the broadcast channel or the private mailbox delivered a
/// message; or the session has to end for another reason, such as a socket
/// that takes no more writes.
#[derive(Debug, PartialEq, Eq)]
pub enum SessionEvent {
    Frame(Result<ClientMessage, ConnectionError>),
    Broadcast(ServerMessage),
    Mailbox(ServerMessage),
    Shutdown,
}

/// Mathematical value of an event.
pub ghost enum SessionEventView {
    Frame(Result<ClientMessageView, ConnectionError>),
    Broadcast(ServerMessageView),
    Mailbox(ServerMessageView),
    Shutdown,
}

impl View for SessionEvent {
    type V = SessionEventView;

    open spec fn view(&self) -> SessionEventView {
        match self {
            SessionEvent::Frame(Ok(message)) => SessionEventView::Frame(Ok(message@)),
            SessionEvent::Frame(Err(e)) => SessionEventView::Frame(Err(*e)),
            SessionEvent::Broadcast(message) => SessionEventView::Broadcast(message@),
            SessionEvent::Mailbox(message) => SessionEventView::Mailbox(message@),
            SessionEvent::Shutdown => SessionEventView::Shutdown,
        }
    }
}

/// What a step of a session gives: the actions to perform, in order, and
/// whether the session goes on or has ended with an error.
#[derive(Debug, PartialEq, Eq)]
pub struct SessionStep {
    pub actions: Vec<SessionAction>,
    pub outcome: Result<(), ServerError>,
}

/// Mathematical value of a session: its state and the name of its user, once
/// the handshake has named one.
pub ghost struct SessionView {
    pub state: SessionState,
    pub user: Option<Seq<char>>,
}

/// Mathematical value of a step: the session afterwards, the actions and the
/// outcome.
pub ghost struct SessionStepView {
    pub session: SessionView,
    pub actions: Seq<SessionActionView>,
    pub outcome: Result<(), ServerErrorView>,
}

/// The command that takes `user` out of the user registry.
pub open spec fn disconnect_of(user: Seq<char>) -> SessionActionView {
    SessionActionView::Submit(
        ProcessMessageView::Internal(
            ProcessInternalView::UserMessage(
                UserMessageView { from_user: user, message: UserInternalView::DisconnectUser },
            ),
        ),
    )
}

/// The session after its end.
pub open spec fn closed(session: SessionView) -> SessionView {
    SessionView { state: SessionState::Closed, user: session.user }
}

/// The connection comes into the handler's hands: a session that was
/// connecting awaits the handshake from then on. On any other session this
/// has no effect.
pub open spec fn accept_step(session: SessionView) -> SessionView {
    if session.state == SessionState::Connecting {
        SessionView { state: SessionState::Authenticating, user: session.user }
    } else {
        session
    }
}

/// The handshake: the first frame must be a handshake, and it names the
/// user. The session then asks the user registry to take that user in. Any
/// other first frame, a failed read, or a handshake at another time ends the
/// session as an invalid handshake.
pub open spec fn handshake_step(
    session: SessionView,
    frame: Result<Seq<char>, ConnectionError>,
) -> SessionStepView {
    if session.state == SessionState::Authenticating && session.user is None && frame is Ok {
        let name = frame.unwrap();
        SessionStepView {
            session: SessionView { state: SessionState::Authenticating, user: Some(name) },
            actions: seq![
                SessionActionView::Submit(
                    ProcessMessageView::Internal(
                        ProcessInternalView::UserMessage(
                            UserMessageView { from_user: name, message: UserInternalView::NewUser },
                        ),
                    ),
                ),
            ],
            outcome: Ok(()),
        }
    } else {
        SessionStepView {
            session: closed(session),
            actions: Seq::empty(),
            outcome: Err(ServerErrorView::InvalidHandshake),
        }
    }
}

/// The registry's answer to the handshake. An admitted user is welcomed,
/// with `styled` as the painted name, and the session becomes active. A
/// refused one, as for a name that is taken, gets the error as a notice and
/// the session ends with that error. An answer that no handshake asked for
/// ends the session as an invalid handshake.
pub open spec fn admission_step(
    session: SessionView,
    reply: Result<UserView, CommonErrorView>,
    styled: Seq<char>,
) -> SessionStepView {
    if session.state == SessionState::Authenticating && session.user is Some {
        match reply {
            Ok(_) => SessionStepView {
                session: SessionView { state: SessionState::Active, user: session.user },
                actions: seq![
                    SessionActionView::Write(
                        ServerInternalView::ServerMessage("Welcome, "@ + styled + "!"@),
                    ),
                ],
                outcome: Ok(()),
            },
            Err(e) => SessionStepView {
                session: closed(session),
                actions: seq![SessionActionView::Write(ServerInternalView::Error(e.text()))],
                outcome: Err(ServerErrorView::Common(e)),
            },
        }
    } else {
        SessionStepView {
            session: closed(session),
            actions: Seq::empty(),
            outcome: Err(ServerErrorView::InvalidHandshake),
        }
    }
}

/// The end of the time for the handshake: a session that is still
/// authenticating tells the client and ends. On any other session the timer
/// has no effect.
pub open spec fn timeout_step(session: SessionView) -> SessionStepView {
    if session.state == SessionState::Authenticating {
        SessionStepView {
            session: closed(session),
            actions: seq![
                SessionActionView::Write(ServerInternalView::Error("Handshake timeout"@)),
            ],
            outcome: Err(ServerErrorView::HandshakeTimeout),
        }
    } else {
        SessionStepView { session, actions: Seq::empty(), outcome: Ok(()) }
    }
}

/// The rule of an active session, for the session of `user`.
///
/// - A frame of the client goes to the command router in the user's name. A
///   request to disconnect ends the session after that.
/// - A read that fails ends the session: silently where the client closed
///   the connection, with the error otherwise.
/// - A broadcast is written to the socket unless its origin is this user.
/// - What the mailbox delivers is written to the socket, whatever its origin.
/// - However the session ends, its last action is the command that takes
///   the user out of the user registry.
pub open spec fn active_step(user: Seq<char>, event: SessionEventView) -> SessionStepView {
    let active = SessionView { state: SessionState::Active, user: Some(user) };
    let over = SessionView { state: SessionState::Closed, user: Some(user) };
    match event {
        SessionEventView::Frame(Ok(message)) => {
            let submit = SessionActionView::Submit(
                ProcessMessageView::ClientMessage { from_user: user, message },
            );
            if message is Disconnect {
                SessionStepView {
                    session: over,
                    actions: seq![submit, disconnect_of(user)],
                    outcome: Ok(()),
                }
            } else {
                SessionStepView { session: active, actions: seq![submit], outcome: Ok(()) }
            }
        },
        SessionEventView::Frame(Err(e)) => SessionStepView {
            session: over,
            actions: seq![disconnect_of(user)],
            outcome: if e == ConnectionError::ConnectionClosed {
                Ok(())
            } else {
                Err(ServerErrorView::Connection(e))
            },
        },
        SessionEventView::Broadcast(message) => SessionStepView {
            session: active,
            actions: if message.from_user != user {
                seq![SessionActionView::Write(message.content)]
            } else {
                Seq::empty()
            },
            outcome: Ok(()),
        },
        SessionEventView::Mailbox(message) => SessionStepView {
            session: active,
            actions: seq![SessionActionView::Write(message.content)],
            outcome: Ok(()),
        },
        SessionEventView::Shutdown => SessionStepView {
            session: over,
            actions: seq![disconnect_of(user)],
            outcome: Ok(()),
        },
    }
}

/// The rule of a session for an event: an active session goes by
/// `active_step`; on a session in any other state an event has no effect.
pub open spec fn session_step(session: SessionView, event: SessionEventView) -> SessionStepView {
    if session.state == SessionState::Active && session.user is Some {
        active_step(session.user.unwrap(), event)
    } else {
        SessionStepView { session, actions: Seq::empty(), outcome: Ok(()) }
    }
}

/// The server's side of one connection.
#[derive(Debug)]
pub struct ClientHandler {
    state: SessionState,
    user: Option<UserName>,
}

impl View for ClientHandler {
    type V = SessionView;

    closed spec fn view(&self) -> SessionView {
        SessionView {
            state: self.state,
            user: match self.user {
                Some(name) => Some(name@),
                None => None,
            },
        }
    }
}

/// Mathematical value of an outcome.
pub open spec fn outcome_view(outcome: Result<(), ServerError>) -> Result<(), ServerErrorView> {
    match outcome {
        Ok(()) => Ok(()),
        Err(e) => Err(e@),
    }
}

/// `step`, with the session `session` behind it, is the step `expected`.
pub open spec fn is_step(session: SessionView, step: SessionStep, expected: SessionStepView) -> bool {
    &&& expected.session == session
    &&& expected.actions == step.actions.deep_view()
    &&& expected.outcome == outcome_view(step.outcome)
}

/// The step with these actions.
fn step_of(actions: Vec<SessionAction>, outcome: Result<(), ServerError>) -> (step: SessionStep)
    ensures
        step.actions == actions,
        step.outcome == outcome,
{
    SessionStep { actions, outcome }
}

/// The list that holds `action` alone.
fn one(action: SessionAction) -> (actions: Vec<SessionAction>)
    ensures
        actions.deep_view() == seq![action@],
{
    let mut actions: Vec<SessionAction> = Vec::new();
    actions.push(action);
    assert(actions.deep_view() =~= seq![action@]);
    actions
}

/// The list that holds no action.
fn none() -> (actions: Vec<SessionAction>)
    ensures
        actions.deep_view() == Seq::<SessionActionView>::empty(),
{
    let actions: Vec<SessionAction> = Vec::new();
    assert(actions.deep_view() =~= Seq::<SessionActionView>::empty());
    actions
}

/// The command that takes `user` out of the user registry.
fn disconnect(user: &UserName) -> (action: SessionAction)
    ensures
        action@ == disconnect_of(user@),
{
    SessionAction::Submit(
        ProcessMessage::Internal(
            ProcessInternal::UserMessage(
                UserMessage { from_user: user.clone(), message: UserInternal::DisconnectUser },
            ),
        ),
    )
}

impl ClientHandler {
    /// The handler of a connection that is not yet established.
    pub fn new() -> (handler: Self)
        ensures
            handler@ == (SessionView { state: SessionState::Connecting, user: None }),
    {
        Self { state: SessionState::Connecting, user: None }
    }

    /// Takes the connection over: the handshake is awaited from now on.
    pub fn accept(&mut self)
        ensures
            final(self)@ == accept_step(old(self)@),
    {
        if matches!(self.state, SessionState::Connecting) {
            self.state = SessionState::Authenticating;
        }
    }

    /// The handler of a connection that has just been accepted: the
    /// handshake is awaited.
    pub fn init() -> (handler: Self)
        ensures
            handler@ == accept_step(SessionView { state: SessionState::Connecting, user: None }),
    {
        let mut handler = Self::new();
        handler.accept();
        handler
    }

    pub fn state(&self) -> (state: SessionState)
        ensures
            state == self@.state,
    {
        self.state
    }

    /// The user of the session, once the handshake has named one.
    pub fn user(&self) -> (user: Option<&UserName>)
        ensures
            match user {
                Some(name) => self@.user == Some(name@),
                None => self@.user is None,
            },
    {
        self.user.as_ref()
    }

    /// Takes the first frame of the connection.
    pub fn authenticate(&mut self, frame: Result<Handshake, ConnectionError>) -> (step: SessionStep)
        ensures
            is_step(final(self)@, step, handshake_step(old(self)@, handshake_view(frame))),
    {
        match frame {
            Ok(Handshake(name)) => {
                if matches!(self.state, SessionState::Authenticating) && self.user.is_none() {
                    let submit = SessionAction::Submit(
                        ProcessMessage::Internal(
                            ProcessInternal::UserMessage(
                                UserMessage {
                                    from_user: name.clone(),
                                    message: UserInternal::NewUser,
                                },
                            ),
                        ),
                    );
                    self.user = Some(name);
                    return step_of(one(submit), Ok(()));
                }
            },
            Err(_) => {},
        }
        self.state = SessionState::Closed;
        step_of(none(), Err(ServerError::InvalidHandshake))
    }

    /// Takes the registry's answer to the handshake, and paints the user's
    /// name for the welcome.
    pub fn welcome(&mut self, reply: Result<User, CommonError>) -> (step: SessionStep)
        ensures
            exists|styled: Seq<char>|
                (old(self)@.user is Some ==> painted_green(old(self)@.user.unwrap(), styled))
                    && is_step(
                    final(self)@,
                    step,
                    #[trigger] admission_step(old(self)@, admission_view(reply), styled),
                ),
    {
        let styled = match &self.user {
            Some(name) => green(name.user_name()),
            None => String::new(),
        };
        let step = self.welcome_painted(reply, styled.as_str());
        assert(is_step(
            final(self)@,
            step,
            admission_step(old(self)@, admission_view(reply), styled@),
        ));
        step
    }

    /// Takes the registry's answer to the handshake, with `styled` as the
    /// painted name of the user.
    pub fn welcome_painted(&mut self, reply: Result<User, CommonError>, styled: &str) -> (step:
        SessionStep)
        ensures
            is_step(final(self)@, step, admission_step(old(self)@, admission_view(reply), styled@)),
    {
        if matches!(self.state, SessionState::Authenticating) && self.user.is_some() {
            match reply {
                Ok(_) => {
                    let mut text = String::from_str("Welcome, ");
                    text.append(styled);
                    text.append("!");
                    self.state = SessionState::Active;
                    step_of(one(SessionAction::Write(ServerInternal::ServerMessage(text))), Ok(()))
                },
                Err(e) => {
                    self.state = SessionState::Closed;
                    step_of(
                        one(SessionAction::Write(ServerInternal::Error(e.to_string()))),
                        Err(ServerError::Common(e)),
                    )
                },
            }
        } else {
            self.state = SessionState::Closed;
            step_of(none(), Err(ServerError::InvalidHandshake))
        }
    }

    /// Takes the end of the time for the handshake.
    pub fn timeout(&mut self) -> (step: SessionStep)
        ensures
            is_step(final(self)@, step, timeout_step(old(self)@)),
    {
        if matches!(self.state, SessionState::Authenticating) {
            self.state = SessionState::Closed;
            step_of(
                one(
                    SessionAction::Write(
                        ServerInternal::Error(String::from_str("Handshake timeout")),
                    ),
                ),
                Err(ServerError::HandshakeTimeout),
            )
        } else {
            step_of(none(), Ok(()))
        }
    }

    /// Takes one event of an active session.
    pub fn run(&mut self, event: SessionEvent) -> (step: SessionStep)
        ensures
            is_step(final(self)@, step, session_step(old(self)@, event@)),
    {
        if !matches!(self.state, SessionState::Active) {
            return step_of(none(), Ok(()));
        }
        let user = match &self.user {
            Some(name) => name.clone(),
            None => {
                return step_of(none(), Ok(()));
            },
        };
        match event {
            SessionEvent::Frame(Ok(message)) => {
                let leaving = matches!(message, ClientMessage::Disconnect);
                let submit = SessionAction::Submit(
                    ProcessMessage::ClientMessage { from_user: user.clone(), message },
                );
                if leaving {
                    self.state = SessionState::Closed;
                    let last = disconnect(&user);
                    let mut actions: Vec<SessionAction> = Vec::new();
                    actions.push(submit);
                    actions.push(last);
                    assert(actions.deep_view() =~= seq![submit@, last@]);
                    step_of(actions, Ok(()))
                } else {
                    step_of(one(submit), Ok(()))
                }
            },
            SessionEvent::Frame(Err(e)) => {
                self.state = SessionState::Closed;
                let outcome = match e {
                    ConnectionError::ConnectionClosed => Ok(()),
                    _ => Err(ServerError::Connection(e)),
                };
                step_of(one(disconnect(&user)), outcome)
            },
            SessionEvent::Broadcast(message) => {
                let ServerMessage { from_user, content } = message;
                if from_user != user {
                    step_of(one(SessionAction::Write(content)), Ok(()))
                } else {
                    step_of(none(), Ok(()))
                }
            },
            SessionEvent::Mailbox(message) => {
                let ServerMessage { from_user, content } = message;
                step_of(one(SessionAction::Write(content)), Ok(()))
            },
            SessionEvent::Shutdown => {
                self.state = SessionState::Closed;
                step_of(one(disconnect(&user)), Ok(()))
            },
        }
    }
}

/// Mathematical value of the first frame, as it was read.
pub open spec fn handshake_view(frame: Result<Handshake, ConnectionError>) -> Result<
    Seq<char>,
    ConnectionError,
> {
    match frame {
        Ok(handshake) => Ok(handshake@),
        Err(e) => Err(e),
    }
}

/// Mathematical value of the registry's answer to the handshake.
pub open spec fn admission_view(reply: Result<User, CommonError>) -> Result<
    UserView,
    CommonErrorView,
> {
    match reply {
        Ok(user) => Ok(user@),
        Err(e) => Err(e@),
    }
}

/// A global chat message reaches the socket of every active session but
/// that of its sender: the router publishes it with the sender as its
/// origin, and a session writes a broadcast exactly when the origin is not
/// its own user. Neither session ends over it.
pub proof fn lemma_global_chat_skips_sender(user: Seq<char>, sender: Seq<char>, text: Seq<char>)
    ensures
        client_route(sender, ClientMessageView::GlobalChatMessage(text)) is Broadcast,
        ({
            let published = client_route(
                sender,
                ClientMessageView::GlobalChatMessage(text),
            )->Broadcast_0;
            let session = SessionView { state: SessionState::Active, user: Some(user) };
            let step = session_step(session, SessionEventView::Broadcast(published));
            &&& published.from_user == sender
            &&& step.session == session
            &&& step.outcome == Ok::<(), ServerErrorView>(())
            &&& user != sender ==> step.actions == seq![
                SessionActionView::Write(
                    ServerInternalView::GlobalChatMessage { from_user: sender, content: text },
                ),
            ]
            &&& user == sender ==> step.actions == Seq::<SessionActionView>::empty()
        }),
{
}

/// Every way in which an active session ends has the command that takes its
/// user out of the registry as the last action.
pub proof fn lemma_session_end_disconnects(user: Seq<char>, event: SessionEventView)
    requires
        active_step(user, event).session.state == SessionState::Closed,
    ensures
        active_step(user, event).actions.len() > 0,
        active_step(user, event).actions.last() == disconnect_of(user),
{
}

} // verus!
