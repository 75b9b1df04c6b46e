use crate::common::messages::{
    ClientMessage, ClientMessageView, Handshake, ServerInternal, ServerInternalView,
};
use crate::common::UserName;
use vstd::prelude::*;

verus! {

/// What the client does once a request is written to the connection.
#[derive(Debug, Clone, Copy, PartialEq, Eq, Hash, Structural)]
pub enum AfterSend {
    /// Go on with the next input or frame.
    Continue,
    /// Wait for the pong that answers the ping with this nonce.
    AwaitPong(u16),
    /// The client asked to disconnect: it is done.
    Finish,
}

/// What a frame says to a client that waits for a pong.
#[derive(Debug, Clone, Copy, PartialEq, Eq, Hash, Structural)]
pub enum PongCheck {
    /// The pong carries the nonce of the ping.
    Answered,
    /// The pong carries another nonce, the one given here.
    Mismatch(u16),
    /// The frame is no pong.
    NotAPong,
}

/// What follows the sending of `frame`.
pub open spec fn after_send(frame: ClientMessageView) -> AfterSend {
    match frame {
        ClientMessageView::Ping(nonce) => AfterSend::AwaitPong(nonce),
        ClientMessageView::Disconnect => AfterSend::Finish,
        _ => AfterSend::Continue,
    }
}

/// What `answer` says to the client that sent a ping with `nonce`.
pub open spec fn pong_check(nonce: u16, answer: ServerInternalView) -> PongCheck {
    match answer {
        ServerInternalView::Pong(n) => if n == nonce {
            PongCheck::Answered
        } else {
            PongCheck::Mismatch(n)
        },
        _ => PongCheck::NotAPong,
    }
}

/// The client's side of a connection.
#[derive(Debug)]
pub struct Client {
    user: UserName,
}

impl View for Client {
    type V = Seq<char>;

    closed spec fn view(&self) -> Seq<char> {
        self.user@
    }
}

impl Client {
    pub fn new(user: &str) -> (client: Self)
        ensures
            client@ == user@,
    {
        Self { user: UserName::new(user) }
    }

    /// The frame that opens the connection: the handshake with the user's name.
    pub fn authenticate(&self) -> (frame: Handshake)
        ensures
            frame@ == self@,
    {
        Handshake(self.user.clone())
    }

    /// What follows the sending of `frame`.
    pub fn process_frame(frame: &ClientMessage) -> (next: AfterSend)
        ensures
            next == after_send(frame@),
    {
        match frame {
            ClientMessage::Ping(nonce) => AfterSend::AwaitPong(*nonce),
            ClientMessage::Disconnect => AfterSend::Finish,
            _ => AfterSend::Continue,
        }
    }

    /// What `answer` says to the client that sent a ping with `nonce`.
    pub fn check_pong(nonce: u16, answer: &ServerInternal) -> (check: PongCheck)
        ensures
            check == pong_check(nonce, answer@),
    {
        match answer {
            ServerInternal::Pong(n) => if *n == nonce {
                PongCheck::Answered
            } else {
                PongCheck::Mismatch(*n)
            },
            _ => PongCheck::NotAPong,
        }
    }
}

} // verus!
