//! One serialized request/response exchange.
//!
//! A caller acquires the connection's transaction gate, writes its command,
//! and reads until the first text payload arrives; because at most one
//! exchange is in flight and the server answers in request order, that
//! payload is the response to the caller's own request. The functions here
//! are the response side of that path: what the exchange returns once the
//! raw read concluded, and the whole read over recorded wire events. The
//! gate itself is a mutual-exclusion primitive held by the unverified
//! connection plumbing.

use vstd::prelude::*;

use crate::classify::classify_response;
use crate::classify::spec_error_fields;
use crate::classify::spec_is_structured_error;
use crate::error::Error;
use crate::receive::Frame;
use crate::receive::TimedEvent;
use crate::receive::WireEvent;
use crate::receive::drive_receive;
use crate::receive::lemma_first_text_is_result;
use crate::receive::on_time_discards_until;
use crate::receive::spec_drive;

verus! {

/// What one exchange returns once its raw read concluded: a failed read is
/// surfaced as it is; a payload matching the structured-error shape becomes
/// the application-level rejection it encodes; any other payload is the
/// response, handed back raw for the caller to decode.
pub fn conclude_exchange(received: Result<String, Error>) -> (r: Result<String, Error>)
    ensures
        match received {
            Err(e) => r == Err::<String, Error>(e),
            Ok(t) => match r {
                Ok(out) => !spec_is_structured_error(t@) && out == t,
                Err(e) => spec_is_structured_error(t@) && (e matches Error::ErrorResponse {
                    response,
                } && response.status == false && spec_error_fields(t@) == Some(
                    (false, response.error_code@, response.error_descr@),
                )),
            },
        },
{
    match received {
        Err(e) => Err(e),
        Ok(t) => classify_response(t),
    }
}

/// The whole read side of one exchange over recorded wire events: the
/// receive loop first, then classification of the payload it yielded.
/// `None` means the recorded events ran out while the read was still
/// waiting.
pub fn transaction_outcome(events: &Vec<TimedEvent>, timeout_ms: u64) -> (r: Option<
    Result<String, Error>,
>)
    ensures
        match spec_drive(events@, timeout_ms) {
            None => r is None,
            Some(Err(e)) => r == Some(Err::<String, Error>(e)),
            Some(Ok(t)) => match r {
                Some(Ok(out)) => !spec_is_structured_error(t@) && out == t,
                Some(Err(e)) => spec_is_structured_error(t@) && (e matches Error::ErrorResponse {
                    response,
                } && response.status == false && spec_error_fields(t@) == Some(
                    (false, response.error_code@, response.error_descr@),
                )),
                None => false,
            },
        },
{
    match drive_receive(events, timeout_ms) {
        None => None,
        Some(received) => Some(conclude_exchange(received)),
    }
}

/// No cross-talk between concurrent transactional callers: the transaction
/// gate admits one exchange at a time, and the server answers in request
/// order, so the first text payload a caller's read can see — after any run
/// of discarded control frames — is the reply to that caller's own request.
/// Under that serialization, the `k`-th caller's read returns exactly the
/// reply to the `k`-th request, whatever the other callers do before or
/// after.
pub proof fn lemma_serialized_exchanges_no_cross_talk(
    requests: Seq<Seq<char>>,
    reply_of: spec_fn(Seq<char>) -> Seq<char>,
    reads: Seq<Seq<TimedEvent>>,
    timeout_ms: u64,
    k: int,
    i: int,
    s: String,
)
    requires
        reads.len() == requests.len(),
        0 <= k < reads.len(),
        0 <= i < reads[k].len(),
        on_time_discards_until(reads[k], timeout_ms, i),
        reads[k][i].delay_ms < timeout_ms,
        reads[k][i].event == WireEvent::Frame(Frame::Text(s)),
        s@ == reply_of(requests[k]),
    ensures
        spec_drive(reads[k], timeout_ms) == Some(Ok::<String, Error>(s)),
{
    lemma_first_text_is_result(reads[k], timeout_ms, i, s);
}

} // verus!
