//! The library's error type.

use vstd::prelude::*;

verus! {

/// What went wrong, by category, with a message where the category has one.
#[derive(Debug, Clone, PartialEq, Eq)]
pub enum Error {
    /// The agent executable could not be started.
    Spawn(String),
    /// A pipe or I/O failure while talking to the agent.
    Connection(String),
    /// The agent refused to create a remote session.
    Session(String),
    /// A protocol-level failure, or no usable text from the agent.
    Protocol(String),
    /// The overall timeout was exceeded.
    Timeout,
    /// No session with the given id is stored.
    SessionNotFound(String),
    /// Reserved for reuse of a long-lived connection.
    NotConnected,
    /// No agent matches the given selector.
    AgentNotFound(String),
    /// An I/O failure reported by the transport layer.
    Io(String),
    /// A serialization failure reported by the transport layer.
    Json(String),
}

/// The categories of [`Error`], without their messages.
#[derive(Debug, Clone, Copy, PartialEq, Eq, Structural)]
pub enum ErrorKind {
    Spawn,
    Connection,
    Session,
    Protocol,
    Timeout,
    SessionNotFound,
    NotConnected,
    AgentNotFound,
    Io,
    Json,
}

impl Error {
    /// The category of this error.
    pub open spec fn spec_kind(&self) -> ErrorKind {
        match self {
            Error::Spawn(_) => ErrorKind::Spawn,
            Error::Connection(_) => ErrorKind::Connection,
            Error::Session(_) => ErrorKind::Session,
            Error::Protocol(_) => ErrorKind::Protocol,
            Error::Timeout => ErrorKind::Timeout,
            Error::SessionNotFound(_) => ErrorKind::SessionNotFound,
            Error::NotConnected => ErrorKind::NotConnected,
            Error::AgentNotFound(_) => ErrorKind::AgentNotFound,
            Error::Io(_) => ErrorKind::Io,
            Error::Json(_) => ErrorKind::Json,
        }
    }

    /// The message that the error carries; empty for the categories without one.
    pub open spec fn detail(&self) -> Seq<char> {
        match self {
            Error::Spawn(m) => m@,
            Error::Connection(m) => m@,
            Error::Session(m) => m@,
            Error::Protocol(m) => m@,
            Error::Timeout => Seq::empty(),
            Error::SessionNotFound(m) => m@,
            Error::NotConnected => Seq::empty(),
            Error::AgentNotFound(m) => m@,
            Error::Io(m) => m@,
            Error::Json(m) => m@,
        }
    }

    /// Whether this error is of category `k` and carries message `m`.
    pub open spec fn is(&self, k: ErrorKind, m: Seq<char>) -> bool {
        self.spec_kind() == k && self.detail() == m
    }

    /// The human-readable description of the error.
    pub open spec fn spec_describe(&self) -> Seq<char> {
        match self {
            Error::Spawn(m) => "Failed to spawn agent CLI: "@ + m@,
            Error::Connection(m) => "Connection error: "@ + m@,
            Error::Session(m) => "Session error: "@ + m@,
            Error::Protocol(m) => "Protocol error: "@ + m@,
            Error::Timeout => "Timeout waiting for response"@,
            Error::SessionNotFound(m) => "Session not found: "@ + m@,
            Error::NotConnected => "Not connected"@,
            Error::AgentNotFound(m) => "Agent not found: "@ + m@,
            Error::Io(m) => "IO error: "@ + m@,
            Error::Json(m) => "JSON error: "@ + m@,
        }
    }

    /// The category of this error.
    pub fn kind(&self) -> (r: ErrorKind)
        ensures
            r == self.spec_kind(),
    {
        match self {
            Error::Spawn(_) => ErrorKind::Spawn,
            Error::Connection(_) => ErrorKind::Connection,
            Error::Session(_) => ErrorKind::Session,
            Error::Protocol(_) => ErrorKind::Protocol,
            Error::Timeout => ErrorKind::Timeout,
            Error::SessionNotFound(_) => ErrorKind::SessionNotFound,
            Error::NotConnected => ErrorKind::NotConnected,
            Error::AgentNotFound(_) => ErrorKind::AgentNotFound,
            Error::Io(_) => ErrorKind::Io,
            Error::Json(_) => ErrorKind::Json,
        }
    }

    /// The human-readable description of the error.
    pub fn describe(&self) -> (r: String)
        ensures
            r@ == self.spec_describe(),
    {
        match self {
            Error::Spawn(m) => prefixed("Failed to spawn agent CLI: ", m),
            Error::Connection(m) => prefixed("Connection error: ", m),
            Error::Session(m) => prefixed("Session error: ", m),
            Error::Protocol(m) => prefixed("Protocol error: ", m),
            Error::Timeout => "Timeout waiting for response".to_string(),
            Error::SessionNotFound(m) => prefixed("Session not found: ", m),
            Error::NotConnected => "Not connected".to_string(),
            Error::AgentNotFound(m) => prefixed("Agent not found: ", m),
            Error::Io(m) => prefixed("IO error: ", m),
            Error::Json(m) => prefixed("JSON error: ", m),
        }
    }

    /// A spawn error with the given message.
    pub fn spawn(msg: &str) -> (r: Error)
        ensures
            r.is(ErrorKind::Spawn, msg@),
    {
        Error::Spawn(msg.to_string())
    }

    /// A connection error with the given message.
    pub fn connection(msg: &str) -> (r: Error)
        ensures
            r.is(ErrorKind::Connection, msg@),
    {
        Error::Connection(msg.to_string())
    }

    /// A session error with the given message.
    pub fn session(msg: &str) -> (r: Error)
        ensures
            r.is(ErrorKind::Session, msg@),
    {
        Error::Session(msg.to_string())
    }

    /// A protocol error with the given message.
    pub fn protocol(msg: &str) -> (r: Error)
        ensures
            r.is(ErrorKind::Protocol, msg@),
    {
        Error::Protocol(msg.to_string())
    }

    /// A session-not-found error for the given id.
    pub fn session_not_found(id: &str) -> (r: Error)
        ensures
            r.is(ErrorKind::SessionNotFound, id@),
    {
        Error::SessionNotFound(id.to_string())
    }

    /// An agent-not-found error for the given selector.
    pub fn agent_not_found(name: &str) -> (r: Error)
        ensures
            r.is(ErrorKind::AgentNotFound, name@),
    {
        Error::AgentNotFound(name.to_string())
    }
}

/// `head` followed by `tail`.
pub(crate) fn prefixed(head: &str, tail: &String) -> (r: String)
    ensures
        r@ == head@ + tail@,
{
    let s = head.to_string();
    s.concat(tail.as_str())
}

} // verus!
