mod client;
mod handshake;
mod process;
mod room;
mod server;
mod user;

pub use client::{ClientMessage, ClientMessageView};
pub use handshake::Handshake;
pub use process::{
    ProcessInternal, ProcessInternalView, ProcessMessage, ProcessMessageView, ProcessResponse,
    ProcessResponseView,
};
pub use room::{RoomInternal, RoomInternalView, RoomMessage, RoomMessageView};
pub use server::{ServerInternal, ServerInternalView, ServerMessage, ServerMessageView};
pub use user::{UserInternal, UserInternalView, UserMessage, UserMessageView};
