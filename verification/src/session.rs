//! The connection facade's session model: endpoints and lifecycle.
//!
//! A configured host yields two endpoints — one for the command session and
//! one for the push session — and every connection moves through the phases
//! connecting, open, closed. A link-level failure closes a session for good;
//! recovery is the caller's reconnection, never a retry inside this layer.

use vstd::prelude::*;
use vstd::string::*;

use crate::error::Error;
use crate::text::spec_starts_with;
use crate::text::str_starts_with;

verus! {

/// The scheme-qualified host: a host already naming a WebSocket scheme is
/// kept as it is; any other is reached over secure WebSocket.
pub open spec fn spec_normalized_host(host: Seq<char>) -> Seq<char> {
    if spec_starts_with(host, "wss://"@) || spec_starts_with(host, "ws://"@) {
        host
    } else {
        "wss://"@ + host
    }
}

/// The endpoint of the command session: the normalized host, a slash, and
/// the account type.
pub open spec fn spec_socket_url(host: Seq<char>, account_type: Seq<char>) -> Seq<char> {
    spec_normalized_host(host) + "/"@ + account_type
}

/// The endpoint of the push session: the command endpoint with the
/// streaming suffix.
pub open spec fn spec_stream_url(host: Seq<char>, account_type: Seq<char>) -> Seq<char> {
    spec_socket_url(host, account_type) + "Stream"@
}

/// Builds the two session endpoints from the configured host and account
/// type.
pub fn session_urls(host: &str, account_type: &str) -> (r: (String, String))
    ensures
        r.0@ == spec_socket_url(host@, account_type@),
        r.1@ == spec_stream_url(host@, account_type@),
{
    let mut base = String::new();
    if !(str_starts_with(host, "wss://") || str_starts_with(host, "ws://")) {
        base.append("wss://");
    }
    base.append(host);
    base.append("/");
    base.append(account_type);
    proof {
        assert(base@ =~= spec_socket_url(host@, account_type@));
    }
    let mut stream = base.clone();
    stream.append("Stream");
    (base, stream)
}

/// The safe-mode policy gate: a session opened in safe mode rejects every
/// trading command locally, before anything reaches the wire.
pub fn check_trading_allowed(safe: bool) -> (r: Result<(), Error>)
    ensures
        safe <==> r == Err::<(), Error>(Error::TradingIsDisabled),
        !safe <==> r == Ok::<(), Error>(()),
{
    if safe {
        Err(Error::TradingIsDisabled)
    } else {
        Ok(())
    }
}

/// The lifecycle of one connection: created connecting, open after a
/// successful handshake, closed for good once anything fatal is observed.
#[derive(Debug, Clone, Copy, PartialEq, Eq, Structural)]
pub enum SessionPhase {
    Connecting,
    Open,
    Closed,
}

impl SessionPhase {
    /// The handshake concluded: a successful one opens the session, a failed
    /// one is terminal.
    pub fn after_handshake(self, ok: bool) -> (r: SessionPhase)
        requires
            self is Connecting,
        ensures
            r is Open <==> ok,
            r is Closed <==> !ok,
    {
        if ok {
            SessionPhase::Open
        } else {
            SessionPhase::Closed
        }
    }

    /// A read or write concluded: a link-level failure closes the session
    /// for good, while a success or a per-call failure leaves it open.
    pub fn after_operation(self, failure: Option<&Error>) -> (r: SessionPhase)
        requires
            self is Open,
        ensures
            match failure {
                None => r is Open,
                Some(e) => (r is Closed <==> e.spec_is_link_failure()) && (r is Open
                    <==> !e.spec_is_link_failure()),
            },
    {
        match failure {
            None => SessionPhase::Open,
            Some(e) => {
                if e.is_link_failure() {
                    SessionPhase::Closed
                } else {
                    SessionPhase::Open
                }
            },
        }
    }
}

} // verus!
