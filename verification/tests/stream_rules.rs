use api::events::ThreadEvent;
use api::stamp::{Stamp, Timestamp};

fn st() -> Stamp {
    Stamp { id: 9, at: Timestamp { secs: 1, nanos: 0 } }
}
use api::stream::{next_frame, FrameData, Received, SseFrame, StreamStep};

#[test]
fn event_goes_out_under_its_name() {
    let e = ThreadEvent::run_completed(1, 2, 2, st());
    let step = next_frame(Received::Event { event: e, serialized: Ok("{\"a\":1}".to_string()) });
    assert_eq!(
        step,
        StreamStep::Emit(SseFrame { event: "run.completed".to_string(), data: FrameData::Json("{\"a\":1}".to_string()) })
    );
}

#[test]
fn unserializable_event_goes_out_as_internal_error() {
    let e = ThreadEvent::run_started(1, 2, 2, st());
    let step = next_frame(Received::Event { event: e, serialized: Err("bad float".to_string()) });
    assert_eq!(
        step,
        StreamStep::Emit(SseFrame {
            event: "internal.error".to_string(),
            data: FrameData::SerializationError("bad float".to_string()),
        })
    );
}

#[test]
fn lagging_goes_out_with_the_count() {
    assert_eq!(
        next_frame(Received::Lagged(17)),
        StreamStep::Emit(SseFrame { event: "stream.lagged".to_string(), data: FrameData::Lagged(17) })
    );
}

#[test]
fn closed_channel_ends_the_stream() {
    assert_eq!(next_frame(Received::Closed), StreamStep::Stop);
}
