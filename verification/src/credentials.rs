//! The account credentials a session is bootstrapped from.

use vstd::prelude::*;
use vstd::string::*;

use crate::error::Error;

verus! {

/// What a session needs to connect and log in: the account, its password,
/// the host to reach, the account type (real or demo), and whether the
/// session is opened in safe mode, in which trading commands are rejected
/// locally.
#[derive(Debug, Clone, PartialEq)]
pub struct Credentials {
    pub account_id: String,
    pub password: String,
    pub host: String,
    pub type_: String,
    pub safe: bool,
}

impl Default for Credentials {
    /// Empty account and password, the public host, a real account, safe
    /// mode off.
    fn default() -> (r: Credentials)
        ensures
            r.account_id@ == Seq::<char>::empty(),
            r.password@ == Seq::<char>::empty(),
            r.host@ == "ws.xtb.com"@,
            r.type_@ == "real"@,
            r.safe == false,
    {
        Credentials {
            account_id: String::new(),
            password: String::new(),
            host: "ws.xtb.com".to_owned(),
            type_: "real".to_owned(),
            safe: false,
        }
    }
}

/// The credential fields a text carries: the strings under `accountId`,
/// `password`, `host` and `type` and the boolean under `safe`, if the text
/// is a JSON object holding all five; nothing otherwise. A pure function of
/// the text, computed by the JSON parser behind [`Credentials::from`].
pub uninterp spec fn spec_credential_fields(s: Seq<char>) -> Option<
    (Seq<char>, Seq<char>, Seq<char>, Seq<char>, bool),
>;

/// Relies on serde_json (`from_str`, `Value::get`): whether a text parses
/// as JSON and which fields the object carries depend on the text alone.
/// Yields the four credential strings and the safe-mode flag when the text
/// is a JSON object holding all five under those JSON types.
#[verifier::external_body]
fn parse_credential_fields(s: &str) -> (r: Option<(String, String, String, String, bool)>)
    ensures
        match r {
            Some(f) => spec_credential_fields(s@) == Some((f.0@, f.1@, f.2@, f.3@, f.4)),
            None => spec_credential_fields(s@) is None,
        },
{
    let v: serde_json::Value = match serde_json::from_str(s) {
        Ok(v) => v,
        Err(_) => return None,
    };
    match (v.get("accountId"), v.get("password"), v.get("host"), v.get("type"), v.get("safe")) {
        (
            Some(serde_json::Value::String(a)),
            Some(serde_json::Value::String(p)),
            Some(serde_json::Value::String(h)),
            Some(serde_json::Value::String(t)),
            Some(serde_json::Value::Bool(s)),
        ) => Some((a.clone(), p.clone(), h.clone(), t.clone(), *s)),
        _ => None,
    }
}

impl Credentials {
    /// Reads credentials from their JSON rendering: an object with the
    /// strings `accountId`, `password`, `host` and `type` and the boolean
    /// `safe`. Anything else is rejected as unparseable.
    pub fn from(json: &str) -> (r: Result<Credentials, Error>)
        ensures
            match spec_credential_fields(json@) {
                Some(f) => r matches Ok(c) && c.account_id@ == f.0 && c.password@ == f.1
                    && c.host@ == f.2 && c.type_@ == f.3 && c.safe == f.4,
                None => r == Err::<Credentials, Error>(Error::JsonParseError),
            },
    {
        match parse_credential_fields(json) {
            Some((account_id, password, host, type_, safe)) => Ok(
                Credentials { account_id, password, host, type_, safe },
            ),
            None => Err(Error::JsonParseError),
        }
    }
}

} // verus!
