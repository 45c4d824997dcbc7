//! Error kinds surfaced by the library. Every failure is a distinguishable
//! variant; nothing is swallowed silently.

use vstd::prelude::*;

verus! {

/// Application-level status a call can come back with: the server rejected
/// the request and reported a code and a message.
#[derive(Clone, Debug, PartialEq)]
pub struct RpcStatus {
    /// Status code as carried on the wire; zero means success and never
    /// appears here.
    pub code: u32,
    /// Human-readable message attached by the server.
    pub message: String,
}

/// The error taxonomy of the library.
#[derive(Clone, Debug, PartialEq)]
pub enum Error {
    /// A health signal was attempted after the keepalive stream was closed
    /// or could not be established.
    HealthPingConnectionFailure(String),
    /// Connection bootstrap exceeded its bounded wait for the sidecar.
    TimedOut,
    /// The supplied host/port could not be parsed as a connection URI.
    InvalidUri,
    /// The server returned an application-level error status for a call.
    Rpc(RpcStatus),
    /// Channel- or stream-level failure (refused, reset, broken transport).
    Transport(String),
}

impl Error {
    /// Short label naming the error kind, for display by callers.
    pub fn kind_name(&self) -> (s: &'static str)
        ensures
            s@ == match self {
                Error::HealthPingConnectionFailure(_) => "health ping connection failure"@,
                Error::TimedOut => "timed out waiting for the sidecar"@,
                Error::InvalidUri => "failed to parse connection uri"@,
                Error::Rpc(_) => "rpc failure"@,
                Error::Transport(_) => "transport failure"@,
            },
    {
        match self {
            Error::HealthPingConnectionFailure(_) => "health ping connection failure",
            Error::TimedOut => "timed out waiting for the sidecar",
            Error::InvalidUri => "failed to parse connection uri",
            Error::Rpc(_) => "rpc failure",
            Error::Transport(_) => "transport failure",
        }
    }
}

} // verus!
