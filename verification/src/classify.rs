//! Classification of payloads: structured errors and pushed record kinds.
//!
//! A response payload is tried as the structured-error shape first — a JSON
//! object with `status` false and an error code and description — and only a
//! payload that does not match it is handed on for success decoding. A
//! pushed record is classified by its `command` field.

use vstd::prelude::*;

use crate::data::ErrorResponse;
use crate::error::Error;
use crate::text::str_eq;

verus! {

/// The structured-error fields a text carries: the `status` boolean and the
/// `errorCode` and `errorDescr` strings, if the text is a JSON object
/// holding all three; nothing otherwise. A pure function of the text,
/// computed by the JSON parser behind [`classify_response`].
pub uninterp spec fn spec_error_fields(s: Seq<char>) -> Option<(bool, Seq<char>, Seq<char>)>;

/// Relies on serde_json (`from_str`, `Value::get`): whether a text parses
/// as JSON and which fields the object carries depend on the text alone.
/// Yields the `status` boolean and the `errorCode` and `errorDescr` strings
/// when the text is a JSON object holding all three under those JSON types.
#[verifier::external_body]
fn parse_error_fields(s: &str) -> (r: Option<(bool, String, String)>)
    ensures
        match r {
            Some(f) => spec_error_fields(s@) == Some((f.0, f.1@, f.2@)),
            None => spec_error_fields(s@) is None,
        },
{
    let v: serde_json::Value = match serde_json::from_str(s) {
        Ok(v) => v,
        Err(_) => return None,
    };
    match (v.get("status"), v.get("errorCode"), v.get("errorDescr")) {
        (
            Some(serde_json::Value::Bool(b)),
            Some(serde_json::Value::String(c)),
            Some(serde_json::Value::String(d)),
        ) => Some((*b, c.clone(), d.clone())),
        _ => None,
    }
}

/// The text matches the structured-error shape: `status` false, error code
/// and description present.
pub open spec fn spec_is_structured_error(s: Seq<char>) -> bool {
    match spec_error_fields(s) {
        Some(f) => !f.0,
        None => false,
    }
}

/// Classifies one response payload: a payload matching the structured-error
/// shape is surfaced as the application-level rejection it encodes, and is
/// never handed on for success decoding; any other payload is returned
/// unchanged for the caller to decode.
pub fn classify_response(text: String) -> (r: Result<String, Error>)
    ensures
        match r {
            Ok(t) => !spec_is_structured_error(text@) && t == text,
            Err(e) => spec_is_structured_error(text@) && (e matches Error::ErrorResponse {
                response,
            } && response.status == false && spec_error_fields(text@) == Some(
                (false, response.error_code@, response.error_descr@),
            )),
        },
{
    match parse_error_fields(text.as_str()) {
        Some((status, code, descr)) => {
            if !status {
                Err(
                    Error::ErrorResponse {
                        response: ErrorResponse {
                            status: false,
                            error_code: code,
                            error_descr: descr,
                        },
                    },
                )
            } else {
                Ok(text)
            }
        },
        None => Ok(text),
    }
}

/// The kinds of pushed records the protocol can deliver.
#[derive(Debug, Clone, Copy, PartialEq, Eq, Structural)]
pub enum RecordKind {
    Balance,
    Candle,
    KeepAlive,
    News,
    Profit,
    Tick,
    Trade,
    TradeStatus,
}

/// The record kind a pushed command name selects, if it is recognized.
pub open spec fn spec_record_kind(c: Seq<char>) -> Option<RecordKind> {
    if c == "balance"@ {
        Some(RecordKind::Balance)
    } else if c == "candle"@ {
        Some(RecordKind::Candle)
    } else if c == "keepAlive"@ {
        Some(RecordKind::KeepAlive)
    } else if c == "news"@ {
        Some(RecordKind::News)
    } else if c == "profit"@ {
        Some(RecordKind::Profit)
    } else if c == "tickPrices"@ {
        Some(RecordKind::Tick)
    } else if c == "trade"@ {
        Some(RecordKind::Trade)
    } else if c == "tradeStatus"@ {
        Some(RecordKind::TradeStatus)
    } else {
        None
    }
}

/// Maps a pushed command name to its record kind.
pub fn record_kind_of(command: &str) -> (r: Option<RecordKind>)
    ensures
        r == spec_record_kind(command@),
{
    if str_eq(command, "balance") {
        Some(RecordKind::Balance)
    } else if str_eq(command, "candle") {
        Some(RecordKind::Candle)
    } else if str_eq(command, "keepAlive") {
        Some(RecordKind::KeepAlive)
    } else if str_eq(command, "news") {
        Some(RecordKind::News)
    } else if str_eq(command, "profit") {
        Some(RecordKind::Profit)
    } else if str_eq(command, "tickPrices") {
        Some(RecordKind::Tick)
    } else if str_eq(command, "trade") {
        Some(RecordKind::Trade)
    } else if str_eq(command, "tradeStatus") {
        Some(RecordKind::TradeStatus)
    } else {
        None
    }
}

/// The `command` field a text carries: the string under that key, if the
/// text is a JSON object holding one; nothing otherwise. A pure function of
/// the text, computed by the JSON parser behind [`classify_push`].
pub uninterp spec fn spec_command_field(s: Seq<char>) -> Option<Seq<char>>;

/// Relies on serde_json (`from_str`, `Value::get`): whether a text parses
/// as JSON and which fields the object carries depend on the text alone.
/// Yields the string under the `command` key when the text is a JSON object
/// holding one.
#[verifier::external_body]
fn parse_command_field(s: &str) -> (r: Option<String>)
    ensures
        match r {
            Some(c) => spec_command_field(s@) == Some(c@),
            None => spec_command_field(s@) is None,
        },
{
    let v: serde_json::Value = match serde_json::from_str(s) {
        Ok(v) => v,
        Err(_) => return None,
    };
    match v.get("command") {
        Some(serde_json::Value::String(c)) => Some(c.clone()),
        _ => None,
    }
}

/// Classifies one pushed record by its command name. A record without a
/// command string cannot be decoded at all; one whose command name is not
/// recognized is surfaced whole inside the error, so the caller can log it.
pub fn classify_push(record: &str) -> (r: Result<RecordKind, Error>)
    ensures
        match spec_command_field(record@) {
            None => r == Err::<RecordKind, Error>(Error::JsonParseError),
            Some(c) => match spec_record_kind(c) {
                Some(k) => r == Ok::<RecordKind, Error>(k),
                None => r matches Err(Error::UnknownRecord { record: rec }) && rec@ == record@,
            },
        },
{
    match parse_command_field(record) {
        None => Err(Error::JsonParseError),
        Some(c) => match record_kind_of(c.as_str()) {
            Some(k) => Ok(k),
            None => Err(Error::UnknownRecord { record: record.to_owned() }),
        },
    }
}

} // verus!
