//! Turning what a subscription receives into server-sent events.

use vstd::prelude::*;

use crate::events::{event_name_of, ThreadEvent};

verus! {

/// What a subscriber's receiver produced, with the event already turned
/// into JSON text (or the serializer's error text).
#[derive(Debug)]
pub enum Received {
    Event { event: ThreadEvent, serialized: Result<String, String> },
    /// The receiver fell behind and this many events were skipped.
    Lagged(u64),
    /// Every sender is gone.
    Closed,
}

/// The data line of a server-sent event.
#[derive(Clone, Debug, PartialEq, Eq)]
pub enum FrameData {
    /// The event as JSON text.
    Json(String),
    /// `{"type": "serialization_error", "message": ..}` with this message.
    SerializationError(String),
    /// `{"type": "lagged", "skipped": ..}` with this count.
    Lagged(u64),
}

/// A server-sent event: its name and its data.
#[derive(Clone, Debug, PartialEq, Eq)]
pub struct SseFrame {
    pub event: String,
    pub data: FrameData,
}

/// What the stream does next.
#[derive(Clone, Debug, PartialEq, Eq)]
pub enum StreamStep {
    Emit(SseFrame),
    /// End the stream; the thread's channel may then be dropped.
    Stop,
}

/// The event name sent when an event cannot be serialized.
pub open spec fn internal_error_name() -> Seq<char> {
    "internal.error"@
}

/// The event name sent when the subscriber fell behind.
pub open spec fn lagged_name() -> Seq<char> {
    "stream.lagged"@
}

/// The stream's answer to what the receiver produced: an event goes out
/// under its own name with its JSON, or as `internal.error` with the
/// serializer's message when it could not be serialized; falling behind
/// goes out as `stream.lagged` with the number skipped; a closed channel
/// ends the stream.
pub fn next_frame(received: Received) -> (step: StreamStep)
    ensures
        match received {
            Received::Event { event, serialized: Ok(json) } => {
                &&& step matches StreamStep::Emit(frame)
                &&& frame.event@ == event_name_of(event.kind)
                &&& frame.data == FrameData::Json(json)
            },
            Received::Event { event, serialized: Err(msg) } => {
                &&& step matches StreamStep::Emit(frame)
                &&& frame.event@ == internal_error_name()
                &&& frame.data == FrameData::SerializationError(msg)
            },
            Received::Lagged(skipped) => {
                &&& step matches StreamStep::Emit(frame)
                &&& frame.event@ == lagged_name()
                &&& frame.data == FrameData::Lagged(skipped)
            },
            Received::Closed => step == StreamStep::Stop,
        },
{
    match received {
        Received::Event { event, serialized } => match serialized {
            Ok(json) => StreamStep::Emit(SseFrame { event: event.event_name(), data: FrameData::Json(json) }),
            Err(msg) => StreamStep::Emit(
                SseFrame { event: "internal.error".to_owned(), data: FrameData::SerializationError(msg) },
            ),
        },
        Received::Lagged(skipped) => StreamStep::Emit(
            SseFrame { event: "stream.lagged".to_owned(), data: FrameData::Lagged(skipped) },
        ),
        Received::Closed => StreamStep::Stop,
    }
}

/// The names of the stream's own events.
pub proof fn stream_event_names()
    ensures
        internal_error_name() == "internal.error"@,
        lagged_name() == "stream.lagged"@,
{
}

} // verus!
