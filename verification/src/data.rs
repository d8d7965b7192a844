//! The plain response records that travel through the transaction layer.
//!
//! Only the shapes whose fields are plain values live here; the wider
//! catalog of market-data records is decoded outside the verified core and
//! is out of this crate's scope.

use vstd::prelude::*;

verus! {

/// The generic success envelope: a status flag and the typed payload.
#[derive(Debug, Clone, PartialEq)]
pub struct Response<T> {
    pub status: bool,
    pub return_data: T,
}

/// The reply to a login exchange; the session token is what a push-oriented
/// session presents at its own handshake.
#[derive(Debug, Clone, PartialEq)]
pub struct LoginResponse {
    pub status: bool,
    pub stream_session_id: String,
}

/// The reply to a logout exchange.
#[derive(Debug, Clone, PartialEq)]
pub struct LogoutResponse {
    pub status: bool,
}

/// The reply to an application-level ping exchange.
#[derive(Debug, Clone, PartialEq)]
pub struct PingResponse {
    pub status: bool,
}

/// The structured-error shape: a false status plus an error code and its
/// description. A response payload matching this shape is surfaced as
/// [`crate::error::Error::ErrorResponse`] instead of a success payload.
#[derive(Debug, Clone, PartialEq)]
pub struct ErrorResponse {
    pub status: bool,
    pub error_code: String,
    pub error_descr: String,
}

/// A pushed keep-alive record.
#[derive(Debug, Clone, PartialEq)]
pub struct KeepAlive {
    pub timestamp: i64,
}

/// A news item.
#[derive(Debug, Clone, PartialEq)]
pub struct News {
    pub body: String,
    pub key: String,
    pub time: i64,
    pub title: String,
}

/// A market calendar entry.
#[derive(Debug, Clone, PartialEq)]
pub struct Calendar {
    pub country: String,
    pub current: String,
    pub forecast: String,
    pub impact: String,
    pub period: String,
    pub previous: String,
    pub time: i64,
    pub title: String,
}

/// The server's clock.
#[derive(Debug, Clone, PartialEq)]
pub struct ServerTime {
    pub time: i64,
    pub time_string: String,
}

/// Trading and quoting hours of one symbol.
#[derive(Debug, Clone, PartialEq)]
pub struct TradingHours {
    pub quotes: Vec<Quote>,
    pub symbol: String,
    pub trading: Vec<Trading>,
}

/// A quoting window inside one day.
#[derive(Debug, Clone, PartialEq)]
pub struct Quote {
    pub day: i64,
    pub from_t: i64,
    pub to_t: i64,
}

/// A trading window inside one day.
#[derive(Debug, Clone, PartialEq)]
pub struct Trading {
    pub day: i64,
    pub from_t: i64,
    pub to_t: i64,
}

/// The protocol version the server speaks.
#[derive(Debug, Clone, PartialEq)]
pub struct Version {
    pub version: String,
}

/// The order number a trade transaction was registered under.
#[derive(Debug, Clone, PartialEq)]
pub struct Order {
    pub order: i64,
}

} // verus!
