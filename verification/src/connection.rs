//! State of the link to the drive as the companion application sees it.

use vstd::prelude::*;

verus! {

/// State of the connection.
#[derive(Clone, Debug)]
pub enum ConnectionState {
    Disconnected,
    Connecting,
    Connected,
    /// The connection failed, with the reason.
    Error(String),
}

impl Default for ConnectionState {
    /// Not connected.
    fn default() -> (s: Self)
        ensures
            s is Disconnected,
    {
        ConnectionState::Disconnected
    }
}

impl ConnectionState {
    /// Whether frames can be sent.
    pub fn is_connected(&self) -> (c: bool)
        ensures
            c == (self is Connected),
    {
        match self {
            ConnectionState::Connected => true,
            _ => false,
        }
    }
}

} // verus!
