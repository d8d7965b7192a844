use xapi::Error;
use xapi::Period;
use xapi::RequestStatus;
use xapi::TradeCmd;
use xapi::TradeType;
use xapi::session::SessionPhase;
use xapi::session::check_trading_allowed;
use xapi::session::session_urls;

/// A bare host is reached over secure WebSocket; the two endpoints share the
/// path and the push one carries the streaming suffix.
#[test]
fn bare_host_gets_secure_scheme() {
    let (socket, stream) = session_urls("ws.xtb.com", "real");
    assert_eq!(socket, "wss://ws.xtb.com/real");
    assert_eq!(stream, "wss://ws.xtb.com/realStream");
}

/// A host already naming a scheme is kept as it is.
#[test]
fn scheme_qualified_host_kept() {
    let (socket, stream) = session_urls("ws://localhost:8080", "demo");
    assert_eq!(socket, "ws://localhost:8080/demo");
    assert_eq!(stream, "ws://localhost:8080/demoStream");

    let (socket, _) = session_urls("wss://example.com", "demo");
    assert_eq!(socket, "wss://example.com/demo");
}

/// Trading commands are rejected locally on a safe-mode session.
#[test]
fn safe_mode_rejects_trading() {
    assert_eq!(check_trading_allowed(true), Err(Error::TradingIsDisabled));
    assert_eq!(check_trading_allowed(false), Ok(()));
}

/// The session lifecycle: connecting, open on a successful handshake,
/// closed for good on a link-level failure.
#[test]
fn session_lifecycle() {
    let phase = SessionPhase::Connecting;
    let phase = phase.after_handshake(true);
    assert_eq!(phase, SessionPhase::Open);

    let phase = phase.after_operation(None);
    assert_eq!(phase, SessionPhase::Open);

    // A per-call failure leaves the session open.
    let phase = phase.after_operation(Some(&Error::JsonParseError));
    assert_eq!(phase, SessionPhase::Open);

    // A link-level failure is terminal.
    let phase = phase.after_operation(Some(&Error::ConnectionTimeout));
    assert_eq!(phase, SessionPhase::Closed);

    // A failed handshake is terminal too.
    assert_eq!(SessionPhase::Connecting.after_handshake(false), SessionPhase::Closed);
}

#[test]
fn trade_cmd_codes_round_trip() {
    assert_eq!(TradeCmd::from(0), TradeCmd::Buy);
    assert_eq!(TradeCmd::from(1), TradeCmd::Sell);
    assert_eq!(TradeCmd::from(7), TradeCmd::Credit);
    assert_eq!(TradeCmd::from(8), TradeCmd::Invalid);
    assert_eq!(TradeCmd::from(-1), TradeCmd::Invalid);
    assert_eq!(TradeCmd::Buy.code(), 0);
    assert_eq!(TradeCmd::SellStop.code(), 5);
    assert_eq!(TradeCmd::Invalid.code(), -1);
}

#[test]
fn trade_type_codes_round_trip() {
    assert_eq!(TradeType::from(0), TradeType::Open);
    assert_eq!(TradeType::from(4), TradeType::Delete);
    assert_eq!(TradeType::from(5), TradeType::Invalid);
    assert_eq!(TradeType::Modify.code(), 3);
}

#[test]
fn request_status_codes_round_trip() {
    assert_eq!(RequestStatus::from(0), RequestStatus::Error);
    assert_eq!(RequestStatus::from(1), RequestStatus::Pending);
    // The code 2 is not part of the vocabulary.
    assert_eq!(RequestStatus::from(2), RequestStatus::Invalid);
    assert_eq!(RequestStatus::from(3), RequestStatus::Accepted);
    assert_eq!(RequestStatus::from(4), RequestStatus::Rejected);
    assert_eq!(RequestStatus::Accepted.code(), 3);
}

#[test]
fn period_codes_round_trip() {
    assert_eq!(Period::from(1), Period::M1);
    assert_eq!(Period::from(43200), Period::MN1);
    assert_eq!(Period::from(2), Period::Invalid);
    assert_eq!(Period::H4.code(), 240);
    assert_eq!(Period::W1.code(), 10080);
}
