//! The failure taxonomy of the transport layer.

use vstd::prelude::*;

use crate::data::ErrorResponse;

verus! {

/// Everything that can go wrong on a session.
///
/// Link-level failures (`ConnectionClosed`, `ConnectionTimeout`,
/// `NoDataReceived`, `WebSocketError`) mean the link itself is lost: the
/// caller owns reconnection, no retry happens inside this layer. The other
/// variants are per-call failures that leave the connection healthy.
#[derive(Debug, Clone, PartialEq)]
pub enum Error {
    /// The remote side sent a close frame.
    ConnectionClosed,
    /// No frame arrived within the read deadline.
    ConnectionTimeout,
    /// The stream ended without close semantics.
    NoDataReceived,
    /// A trading command was issued on a session opened in read-only mode.
    TradingIsDisabled,
    /// A well-formed application-level rejection of a command.
    ErrorResponse { response: ErrorResponse },
    /// A pushed record whose command name is not recognized.
    UnknownRecord { record: String },
    /// A payload that could not be read as the expected shape.
    JsonParseError,
    /// An underlying transport fault, with its rendered cause.
    WebSocketError { message: String },
}

impl Error {
    /// True of the failures that end the session.
    pub open spec fn spec_is_link_failure(&self) -> bool {
        match self {
            Error::ConnectionClosed => true,
            Error::ConnectionTimeout => true,
            Error::NoDataReceived => true,
            Error::WebSocketError { .. } => true,
            _ => false,
        }
    }

    /// Tells failures that end the session from per-call failures. A caller
    /// holding a long-lived listener should reconnect from scratch exactly
    /// when this returns true.
    pub fn is_link_failure(&self) -> (r: bool)
        ensures
            r == self.spec_is_link_failure(),
    {
        match self {
            Error::ConnectionClosed => true,
            Error::ConnectionTimeout => true,
            Error::NoDataReceived => true,
            Error::WebSocketError { .. } => true,
            _ => false,
        }
    }
}

} // verus!
