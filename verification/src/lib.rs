//! Message-routing core of a multi-room chat server: the wire codec, the
//! per-connection session state machine, and the user registry, room registry,
//! room and command-router actors, each written as a step function from a
//! state and a command to the next state and the list of effects to perform.

use vstd::prelude::*;
use vstd::string::StringExecFns;

pub mod client;
pub mod common;
pub mod connection;
pub mod error;
pub mod server;

pub use client::Client;
pub use common::messages::{ClientMessage, ProcessInternal, ProcessMessage, ServerMessage};
pub use common::{RoomManager, RoomName, UserName};
pub use connection::FrameType;
pub use error::Error;

verus! {

/// The host that the server listens on where none is configured.
pub const DEFAULT_HOST: &'static str = "localhost";

/// The port that the server listens on where none is configured.
pub const DEFAULT_PORT: &'static str = "8080";

/// The address in the form `host:port`, as far as `host` and `port` are
/// configured and with the defaults for the rest.
pub open spec fn address(host: Option<Seq<char>>, port: Option<Seq<char>>) -> Seq<char> {
    (match host {
        Some(host) => host,
        None => DEFAULT_HOST@,
    }) + ":"@ + (match port {
        Some(port) => port,
        None => DEFAULT_PORT@,
    })
}

/// Mathematical value of a setting that may be missing.
pub open spec fn setting_view(setting: Option<String>) -> Option<Seq<char>> {
    match setting {
        Some(text) => Some(text@),
        None => None,
    }
}

/// The address to listen on or to connect to, from what the environment
/// holds for the host and the port.
pub fn init(host: Option<String>, port: Option<String>) -> (addr: String)
    ensures
        addr@ == address(setting_view(host), setting_view(port)),
{
    let mut addr = match host {
        Some(host) => host,
        None => String::from_str(DEFAULT_HOST),
    };
    addr.append(":");
    match port {
        Some(port) => addr.append(port.as_str()),
        None => addr.append(DEFAULT_PORT),
    }
    addr
}

} // verus!
