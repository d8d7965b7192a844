use xapi::Error;
use xapi::Frame;
use xapi::RecordKind;
use xapi::TimedEvent;
use xapi::WireEvent;
use xapi::classify::classify_push;
use xapi::classify::classify_response;
use xapi::classify::record_kind_of;
use xapi::exchange::conclude_exchange;
use xapi::exchange::transaction_outcome;
use xapi::receive::READ_TIMEOUT_MS;

/// A payload matching the structured-error shape yields the rejection it
/// encodes, and is never handed on for success decoding.
#[test]
fn structured_error_payload_rejected() {
    let payload = String::from(
        r#"{"status":false,"errorCode":"BE005","errorDescr":"userPasswordCheck: Invalid login or password"}"#,
    );
    match classify_response(payload) {
        Err(Error::ErrorResponse { response }) => {
            assert_eq!(response.status, false);
            assert_eq!(response.error_code, "BE005");
            assert_eq!(response.error_descr, "userPasswordCheck: Invalid login or password");
        },
        other => panic!("expected a structured error, got {:?}", other),
    }
}

/// A success payload is returned unchanged, even when it carries a status
/// field of its own.
#[test]
fn success_payload_returned_unchanged() {
    let payload = String::from(r#"{"status":true,"returnData":{"version":"2.5.0"}}"#);
    assert_eq!(classify_response(payload.clone()), Ok(payload));
}

/// A payload whose status is true is not a structured error, even with code
/// and description present.
#[test]
fn true_status_is_not_an_error() {
    let payload = String::from(r#"{"status":true,"errorCode":"X","errorDescr":"Y"}"#);
    assert_eq!(classify_response(payload.clone()), Ok(payload));
}

/// A payload missing one of the three error fields is not a structured
/// error.
#[test]
fn incomplete_error_shape_is_not_an_error() {
    let payload = String::from(r#"{"status":false,"errorCode":"BE005"}"#);
    assert_eq!(classify_response(payload.clone()), Ok(payload));
}

/// A payload that is not JSON at all is handed on unchanged.
#[test]
fn non_json_payload_returned_unchanged() {
    let payload = String::from("not json");
    assert_eq!(classify_response(payload.clone()), Ok(payload));
}

/// Every pushed command name maps to its record kind.
#[test]
fn record_kinds_recognized() {
    assert_eq!(record_kind_of("balance"), Some(RecordKind::Balance));
    assert_eq!(record_kind_of("candle"), Some(RecordKind::Candle));
    assert_eq!(record_kind_of("keepAlive"), Some(RecordKind::KeepAlive));
    assert_eq!(record_kind_of("news"), Some(RecordKind::News));
    assert_eq!(record_kind_of("profit"), Some(RecordKind::Profit));
    assert_eq!(record_kind_of("tickPrices"), Some(RecordKind::Tick));
    assert_eq!(record_kind_of("trade"), Some(RecordKind::Trade));
    assert_eq!(record_kind_of("tradeStatus"), Some(RecordKind::TradeStatus));
    assert_eq!(record_kind_of("quote"), None);
    assert_eq!(record_kind_of(""), None);
    assert_eq!(record_kind_of("Balance"), None);
}

/// A pushed record is classified by its command field.
#[test]
fn push_records_classified() {
    let r = classify_push(r#"{"command":"tickPrices","data":{"symbol":"EURUSD"}}"#);
    assert_eq!(r, Ok(RecordKind::Tick));

    let r = classify_push(r#"{"command":"keepAlive","data":{"timestamp":1}}"#);
    assert_eq!(r, Ok(RecordKind::KeepAlive));
}

/// A pushed record with an unrecognized command name is surfaced whole.
#[test]
fn unknown_push_record_surfaced() {
    let record = r#"{"command":"mystery","data":{}}"#;
    match classify_push(record) {
        Err(Error::UnknownRecord { record: rec }) => assert_eq!(rec, record),
        other => panic!("expected an unknown record, got {:?}", other),
    }
}

/// A pushed record without a command string cannot be decoded at all.
#[test]
fn push_record_without_command_rejected() {
    assert_eq!(classify_push(r#"{"data":{}}"#), Err(Error::JsonParseError));
    assert_eq!(classify_push("... garbage ..."), Err(Error::JsonParseError));
    assert_eq!(classify_push(r#"{"command":7}"#), Err(Error::JsonParseError));
}

/// The mock server replies to a ping command with a bare success payload
/// within the deadline: the exchange returns that raw text.
#[test]
fn ping_exchange_returns_raw_success_payload() {
    // The wire as seen during the exchange, after writing {"command":"ping"}.
    let reply = String::from(r#"{"status":true}"#);
    let events = vec![TimedEvent {
        delay_ms: 50,
        event: WireEvent::Frame(Frame::Text(reply.clone())),
    }];
    assert_eq!(transaction_outcome(&events, READ_TIMEOUT_MS), Some(Ok(reply)));
}

/// A failed read concludes the exchange with the read's own error.
#[test]
fn failed_read_concludes_exchange() {
    assert_eq!(
        conclude_exchange(Err(Error::ConnectionTimeout)),
        Err(Error::ConnectionTimeout)
    );
}

/// An exchange whose reply matches the structured-error shape fails with
/// the rejection, not with a decoding error.
#[test]
fn exchange_surfaces_structured_error() {
    let reply = String::from(r#"{"status":false,"errorCode":"BE118","errorDescr":"User already logged"}"#);
    let events = vec![TimedEvent {
        delay_ms: 10,
        event: WireEvent::Frame(Frame::Text(reply)),
    }];
    match transaction_outcome(&events, READ_TIMEOUT_MS) {
        Some(Err(Error::ErrorResponse { response })) => {
            assert_eq!(response.error_code, "BE118");
            assert_eq!(response.error_descr, "User already logged");
        },
        other => panic!("expected a structured error, got {:?}", other),
    }
}

/// Serialized exchanges read their own replies: with one exchange in flight
/// at a time and an echoing server, each caller sees its own marker.
#[test]
fn serialized_exchanges_have_no_cross_talk() {
    // Each caller tags its payload; the mock server echoes the tag back.
    let markers = ["caller-a", "caller-b", "caller-c", "caller-d"];
    let echo = |marker: &str| format!(r#"{{"status":true,"returnData":"{}"}}"#, marker);
    for (k, marker) in markers.iter().enumerate() {
        // The wire during caller k's read: its own reply, nothing else,
        // because no other request can be in flight.
        let events = vec![
            TimedEvent { delay_ms: 100, event: WireEvent::Frame(Frame::Ping) },
            TimedEvent { delay_ms: 20, event: WireEvent::Frame(Frame::Text(echo(marker))) },
        ];
        let outcome = transaction_outcome(&events, READ_TIMEOUT_MS);
        assert_eq!(outcome, Some(Ok(echo(markers[k]))));
    }
}
