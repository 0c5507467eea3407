//! Connections as the server reports them to its observers.

use vstd::prelude::*;

verus! {

/// A peer connection, named by an identifier of the peer.
#[derive(Debug, Clone, PartialEq, Eq)]
pub struct Connection {
    pub id: String,
}

/// What the server did with an incoming connection.
#[derive(Debug, Clone, PartialEq, Eq)]
pub enum ConnectionEvent {
    /// The connection was admitted and is being served.
    Accept(Connection),
    /// The connection was refused because the server was full.
    Reject(Connection),
}

impl ConnectionEvent {
    /// The connection that the event is about.
    pub open spec fn spec_connection(self) -> Connection {
        match self {
            ConnectionEvent::Accept(c) => c,
            ConnectionEvent::Reject(c) => c,
        }
    }

    /// The connection that the event is about.
    pub fn connection(&self) -> (c: &Connection)
        ensures
            *c == self.spec_connection(),
    {
        match self {
            ConnectionEvent::Accept(c) => c,
            ConnectionEvent::Reject(c) => c,
        }
    }

    /// Whether the connection was admitted.
    pub fn is_accept(&self) -> (b: bool)
        ensures
            b == (*self is Accept),
    {
        match self {
            ConnectionEvent::Accept(_) => true,
            ConnectionEvent::Reject(_) => false,
        }
    }
}

/// The error of an observer that could not subscribe to events.
#[derive(Debug, Clone, PartialEq, Eq)]
pub struct Error(String);

impl Error {
    /// The text that the error carries.
    pub closed spec fn spec_message(self) -> Seq<char> {
        self.0@
    }

    /// The text that the error carries.
    pub fn message(&self) -> (m: &str)
        ensures
            m@ == self.spec_message(),
    {
        self.0.as_str()
    }
}

impl From<String> for Error {
    fn from(message: String) -> (e: Error)
        ensures
            e.spec_message() == message@,
    {
        Error(message)
    }
}

impl vstd::std_specs::convert::FromSpecImpl<String> for Error {
    open spec fn obeys_from_spec() -> bool {
        true
    }

    closed spec fn from_spec(message: String) -> Error {
        Error(message)
    }
}

} // verus!
