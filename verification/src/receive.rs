//! The receive loop: frame classification and the read deadline.
//!
//! The read path waits for the next transport frame, re-arming a fresh
//! deadline for every frame. Transport control frames (ping, pong, binary)
//! are discarded; a close frame, an ended stream or a transport fault each
//! fail the read with the matching error; the first text frame is the
//! result. [`drive_receive`] runs that loop over a recorded sequence of
//! timed wire events, and is exactly the spec [`spec_drive`]; the proofs at
//! the end of the module state how silence, keep-alives and close frames
//! decide a read.

use vstd::prelude::*;

use crate::error::Error;

verus! {

/// The period of the background keep-alive writer, in milliseconds.
pub const HEARTBEAT_PERIOD_MS: u64 = 5000;

/// The read deadline: three heartbeat periods without any frame at all mean
/// the link is gone.
pub const READ_TIMEOUT_MS: u64 = 3 * HEARTBEAT_PERIOD_MS;

/// A transport-level frame. Only text payloads are meaningful to this
/// layer, so the payloads of the other frames are not modeled: a ping, pong
/// or binary frame is discarded whatever it carries, and a close frame ends
/// the session whatever its close code.
#[derive(Debug, Clone, PartialEq)]
pub enum Frame {
    /// A text payload: a response or a pushed record.
    Text(String),
    /// A binary payload; ignored.
    Binary,
    /// A transport keep-alive probe; ignored.
    Ping,
    /// A reply to a keep-alive probe; ignored.
    Pong,
    /// The remote side is closing the connection.
    Close,
}

/// What one wait for a frame can yield, besides running into the deadline.
#[derive(Debug, Clone, PartialEq)]
pub enum WireEvent {
    /// A frame arrived.
    Frame(Frame),
    /// The stream ended: no more frames, and no close frame either.
    Ended,
    /// The transport failed, with its rendered cause.
    Failed(String),
}

/// One observed wire event together with how long the read waited for it,
/// in milliseconds since the previous iteration of the receive loop began.
#[derive(Debug, Clone, PartialEq)]
pub struct TimedEvent {
    pub delay_ms: u64,
    pub event: WireEvent,
}

/// What the receive loop does with one wire event.
#[derive(Debug, Clone, PartialEq)]
pub enum ReadStep {
    /// A control frame: discard it and wait again, under a fresh deadline.
    Continue,
    /// A text frame: the read is complete.
    Complete(String),
    /// The read failed.
    Fail(Error),
}

/// How the receive loop classifies one wire event.
pub open spec fn spec_receive_step(event: WireEvent) -> ReadStep {
    match event {
        WireEvent::Frame(Frame::Text(s)) => ReadStep::Complete(s),
        WireEvent::Frame(Frame::Binary) => ReadStep::Continue,
        WireEvent::Frame(Frame::Ping) => ReadStep::Continue,
        WireEvent::Frame(Frame::Pong) => ReadStep::Continue,
        WireEvent::Frame(Frame::Close) => ReadStep::Fail(Error::ConnectionClosed),
        WireEvent::Ended => ReadStep::Fail(Error::NoDataReceived),
        WireEvent::Failed(m) => ReadStep::Fail(Error::WebSocketError { message: m }),
    }
}

/// Classifies one wire event: the first text payload completes the read,
/// control frames are discarded, everything else fails the read.
pub fn receive_step(event: &WireEvent) -> (r: ReadStep)
    ensures
        r == spec_receive_step(*event),
{
    match event {
        WireEvent::Frame(Frame::Text(s)) => ReadStep::Complete(s.clone()),
        WireEvent::Frame(Frame::Binary) => ReadStep::Continue,
        WireEvent::Frame(Frame::Ping) => ReadStep::Continue,
        WireEvent::Frame(Frame::Pong) => ReadStep::Continue,
        WireEvent::Frame(Frame::Close) => ReadStep::Fail(Error::ConnectionClosed),
        WireEvent::Ended => ReadStep::Fail(Error::NoDataReceived),
        WireEvent::Failed(m) => ReadStep::Fail(Error::WebSocketError { message: m.clone() }),
    }
}

/// The outcome of one read over a sequence of timed wire events: the first
/// event whose wait reaches the deadline times the read out; otherwise the
/// first conclusive event decides it. `None` means the recorded events ran
/// out while the read was still waiting.
pub open spec fn spec_drive(events: Seq<TimedEvent>, timeout_ms: u64) -> Option<
    Result<String, Error>,
>
    decreases events.len(),
{
    if events.len() == 0 {
        None
    } else if events[0].delay_ms >= timeout_ms {
        Some(Err(Error::ConnectionTimeout))
    } else {
        match spec_receive_step(events[0].event) {
            ReadStep::Complete(s) => Some(Ok(s)),
            ReadStep::Fail(e) => Some(Err(e)),
            ReadStep::Continue => spec_drive(events.drop_first(), timeout_ms),
        }
    }
}

/// Runs one read of the receive loop over a recorded sequence of timed wire
/// events: waits that reach the deadline fail with `ConnectionTimeout`,
/// control frames are discarded under a fresh deadline each, and the first
/// conclusive event decides the read.
pub fn drive_receive(events: &Vec<TimedEvent>, timeout_ms: u64) -> (r: Option<
    Result<String, Error>,
>)
    ensures
        r == spec_drive(events@, timeout_ms),
{
    let mut i: usize = 0;
    proof {
        assert(events@.skip(0) =~= events@);
    }
    while i < events.len()
        invariant
            0 <= i <= events@.len(),
            spec_drive(events@, timeout_ms) == spec_drive(events@.skip(i as int), timeout_ms),
        decreases events@.len() - i,
    {
        proof {
            assert(events@.skip(i as int)[0] == events@[i as int]);
            assert(events@.skip(i as int).drop_first() =~= events@.skip(i as int + 1));
        }
        let ev = &events[i];
        if ev.delay_ms >= timeout_ms {
            return Some(Err(Error::ConnectionTimeout));
        }
        match receive_step(&ev.event) {
            ReadStep::Complete(s) => {
                return Some(Ok(s));
            },
            ReadStep::Fail(e) => {
                return Some(Err(e));
            },
            ReadStep::Continue => {},
        }
        i = i + 1;
    }
    proof {
        assert(events@.skip(events@.len() as int) =~= Seq::<TimedEvent>::empty());
    }
    None
}

/// The events a read discards: control frames that arrived inside the
/// deadline.
pub open spec fn spec_is_discard(event: WireEvent) -> bool {
    match event {
        WireEvent::Frame(Frame::Binary) => true,
        WireEvent::Frame(Frame::Ping) => true,
        WireEvent::Frame(Frame::Pong) => true,
        _ => false,
    }
}

/// The first `i` recorded events are control frames that each arrived
/// inside the deadline.
pub open spec fn on_time_discards_until(events: Seq<TimedEvent>, timeout_ms: u64, i: int) -> bool {
    forall|j: int|
        0 <= j < i ==> (#[trigger] events[j]).delay_ms < timeout_ms && spec_is_discard(
            events[j].event,
        )
}

/// Discarded events do not decide a read: its outcome is the outcome over
/// what follows them.
pub proof fn lemma_drive_skips_discards(events: Seq<TimedEvent>, timeout_ms: u64, i: int)
    requires
        0 <= i <= events.len(),
        on_time_discards_until(events, timeout_ms, i),
    ensures
        spec_drive(events, timeout_ms) == spec_drive(events.skip(i), timeout_ms),
    decreases i,
{
    if i > 0 {
        assert(events[0].delay_ms < timeout_ms && spec_is_discard(events[0].event));
        let rest = events.drop_first();
        assert(on_time_discards_until(rest, timeout_ms, i - 1)) by {
            assert forall|j: int| 0 <= j < i - 1 implies (#[trigger] rest[j]).delay_ms
                < timeout_ms && spec_is_discard(rest[j].event) by {
                assert(rest[j] == events[j + 1]);
            }
        }
        lemma_drive_skips_discards(rest, timeout_ms, i - 1);
        assert(rest.skip(i - 1) =~= events.skip(i));
    } else {
        assert(events.skip(0) =~= events);
    }
}

/// A read that sees only on-time control frames until a silence that lasts
/// the whole deadline fails with `ConnectionTimeout`: keep-alive probes do
/// not count as data.
pub proof fn lemma_silence_times_out(events: Seq<TimedEvent>, timeout_ms: u64, i: int)
    requires
        0 <= i < events.len(),
        on_time_discards_until(events, timeout_ms, i),
        events[i].delay_ms >= timeout_ms,
    ensures
        spec_drive(events, timeout_ms) == Some(Err::<String, Error>(Error::ConnectionTimeout)),
{
    lemma_drive_skips_discards(events, timeout_ms, i);
    assert(events.skip(i)[0] == events[i]);
}

/// A read that receives one control frame inside each deadline window,
/// indefinitely, never times out: it is still waiting after the whole
/// record.
pub proof fn lemma_keepalives_never_time_out(events: Seq<TimedEvent>, timeout_ms: u64)
    requires
        on_time_discards_until(events, timeout_ms, events.len() as int),
    ensures
        spec_drive(events, timeout_ms) is None,
{
    lemma_drive_skips_discards(events, timeout_ms, events.len() as int);
    assert(events.skip(events.len() as int) =~= Seq::<TimedEvent>::empty());
}

/// A close frame at any point during a read, after any run of discarded
/// control frames, fails the read with `ConnectionClosed`.
pub proof fn lemma_close_frame_fails_read(events: Seq<TimedEvent>, timeout_ms: u64, i: int)
    requires
        0 <= i < events.len(),
        on_time_discards_until(events, timeout_ms, i),
        events[i].delay_ms < timeout_ms,
        events[i].event == WireEvent::Frame(Frame::Close),
    ensures
        spec_drive(events, timeout_ms) == Some(Err::<String, Error>(Error::ConnectionClosed)),
{
    lemma_drive_skips_discards(events, timeout_ms, i);
    assert(events.skip(i)[0] == events[i]);
}

/// An ended stream without close semantics, after any run of discarded
/// control frames, fails the read with `NoDataReceived`.
pub proof fn lemma_end_of_stream_fails_read(events: Seq<TimedEvent>, timeout_ms: u64, i: int)
    requires
        0 <= i < events.len(),
        on_time_discards_until(events, timeout_ms, i),
        events[i].delay_ms < timeout_ms,
        events[i].event == WireEvent::Ended,
    ensures
        spec_drive(events, timeout_ms) == Some(Err::<String, Error>(Error::NoDataReceived)),
{
    lemma_drive_skips_discards(events, timeout_ms, i);
    assert(events.skip(i)[0] == events[i]);
}

/// The first on-time text frame is what the read returns: every frame
/// before it was discarded, nothing after it is looked at.
pub proof fn lemma_first_text_is_result(
    events: Seq<TimedEvent>,
    timeout_ms: u64,
    i: int,
    s: String,
)
    requires
        0 <= i < events.len(),
        on_time_discards_until(events, timeout_ms, i),
        events[i].delay_ms < timeout_ms,
        events[i].event == WireEvent::Frame(Frame::Text(s)),
    ensures
        spec_drive(events, timeout_ms) == Some(Ok::<String, Error>(s)),
{
    lemma_drive_skips_discards(events, timeout_ms, i);
    assert(events.skip(i)[0] == events[i]);
}

} // verus!
