//! Client-side transport core for a single-socket, command/response
//! messaging protocol carried over a persistent duplex stream.
//!
//! Many independent callers issue textual commands over one stream and must
//! each receive exactly the matching response, although the transport carries
//! no correlation identifiers and interleaves keep-alive frames with ordinary
//! responses. The core of this crate is the connection/transaction layer.
//!
//! The asynchronous plumbing around this core (the WebSocket itself, the
//! heartbeat task, the mutual-exclusion gates) is deliberately outside of
//! this crate's verified surface: every function here is a total, synchronous
//! computation on plain values.

mod text;

pub mod classify;
pub mod credentials;
pub mod data;
pub mod enums;
pub mod error;
pub mod exchange;
pub mod pacing;
pub mod receive;
pub mod session;

pub use classify::RecordKind;
pub use credentials::Credentials;
pub use data::Calendar;
pub use data::ErrorResponse;
pub use data::KeepAlive;
pub use data::LoginResponse;
pub use data::LogoutResponse;
pub use data::News;
pub use data::Order;
pub use data::PingResponse;
pub use data::Quote;
pub use data::Response;
pub use data::ServerTime;
pub use data::TradingHours;
pub use data::Trading;
pub use data::Version;
pub use enums::Period;
pub use enums::RequestStatus;
pub use enums::TradeCmd;
pub use enums::TradeType;
pub use error::Error;
pub use pacing::RateLimiter;
pub use receive::Frame;
pub use receive::TimedEvent;
pub use receive::WireEvent;
