//! The messages between the window and the worker of a session, and what a session needs.
use vstd::prelude::*;

use crate::config::{Config, Server};
use crate::input::Operation;

verus! {

/// Messages from the worker to the window.
#[derive(Debug)]
pub enum ToUi {
    Connected { width: u16, height: u16 },
    /// A snapshot of the whole desktop, four bytes for each pixel.
    Frame { width: u16, height: u16, rgba: Vec<u8> },
    Disconnected(String),
    Error(String),
}

/// Messages from the window to the worker.
#[derive(Debug)]
pub enum ToWorker {
    Input(Vec<Operation>),
    /// The remote desktop should get this size.
    Resize { width: u16, height: u16 },
    Shutdown,
}

/// What a session is started with.
#[derive(Debug)]
pub struct SessionRequest {
    pub server: Server,
    pub username: String,
    /// A password field: it may hold a command.
    pub password: String,
    pub domain: String,
    pub clipboard_passthrough: bool,
    pub width: u16,
    pub height: u16,
}

impl SessionRequest {
    /// Whether this asks for a session with `server` under the login that `config` gives it, on a
    /// desktop of the given size.
    pub open spec fn is_for(self, config: Config, server: Server, size: (u16, u16)) -> bool {
        let login = config.effective_login(server);
        &&& self.server == server
        &&& self.username@ == login.username
        &&& self.password@ == login.password
        &&& self.domain@ == login.domain
        &&& self.clipboard_passthrough == config.clipboard_passthrough
        &&& (self.width, self.height) == size
    }

    /// The request for a session with `server`.
    pub fn new(config: &Config, server: &Server, size: (u16, u16)) -> (request: SessionRequest)
        ensures
            request.is_for(*config, *server, size),
    {
        let (username, password, domain) = config.resolve_credentials(server);
        SessionRequest {
            server: server.clone(),
            username: username.to_owned(),
            password: password.to_owned(),
            domain: domain.to_owned(),
            clipboard_passthrough: config.clipboard_passthrough,
            width: size.0,
            height: size.1,
        }
    }
}

/// Why a session ended in an orderly way.
#[derive(Debug)]
pub enum DisconnectReason {
    UserInitiated,
    ServerInitiated,
    Other(String),
}

impl DisconnectReason {
    /// The reason in words.
    pub open spec fn text(self) -> Seq<char> {
        match self {
            DisconnectReason::UserInitiated => "user initiated disconnect"@,
            DisconnectReason::ServerInitiated => "server initiated disconnect"@,
            DisconnectReason::Other(text) => text@,
        }
    }
}

/// The words of `ironrdp_session::GracefulDisconnectReason::description`: fixed ones for a
/// disconnect by the user and by the server, and else those that the reason holds.
#[verifier::external_body]
fn disconnect_description(reason: DisconnectReason) -> (text: String)
    ensures
        text@ == reason.text(),
{
    let reason = match reason {
        DisconnectReason::UserInitiated => {
            ironrdp_session::GracefulDisconnectReason::UserInitiated
        },
        DisconnectReason::ServerInitiated => {
            ironrdp_session::GracefulDisconnectReason::ServerInitiated
        },
        DisconnectReason::Other(text) => ironrdp_session::GracefulDisconnectReason::Other(text),
    };
    reason.description()
}

impl DisconnectReason {
    /// The reason in words.
    pub fn description(self) -> (text: String)
        ensures
            text@ == self.text(),
    {
        disconnect_description(self)
    }
}

} // verus!
