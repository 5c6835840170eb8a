use api::proxy::{bad_gateway, body_kind, event_stream_headers, upstream_url, Message, ResponsesRequest, UpstreamBody};
use api::reply::{ErrorReply, Status};

#[test]
fn event_streams_are_streamed() {
    assert_eq!(body_kind(Some("text/event-stream")), UpstreamBody::EventStream);
    assert_eq!(body_kind(Some("text/event-stream; charset=utf-8")), UpstreamBody::EventStream);
}

#[test]
fn everything_else_is_json() {
    assert_eq!(body_kind(Some("application/json")), UpstreamBody::Json);
    assert_eq!(body_kind(Some("")), UpstreamBody::Json);
    assert_eq!(body_kind(None), UpstreamBody::Json);
    assert_eq!(body_kind(Some("Text/Event-Stream")), UpstreamBody::Json);
    assert_eq!(body_kind(Some(" text/event-stream")), UpstreamBody::Json);
}

#[test]
fn stream_headers() {
    let h = event_stream_headers();
    assert_eq!(
        h,
        vec![
            ("content-type".to_string(), "text/event-stream".to_string()),
            ("cache-control".to_string(), "no-cache".to_string()),
        ]
    );
}

#[test]
fn upstream_errors_are_bad_gateway() {
    assert_eq!(
        bad_gateway("connection refused".to_string()),
        ErrorReply { status: Status::BadGateway, message: "connection refused".to_string() }
    );
    assert_eq!(Status::BadGateway.code(), 502);
}

#[test]
fn upstream_address() {
    assert_eq!(upstream_url(), "http://localhost:8000/v1/responses");
}

#[test]
fn responses_request_holds_its_input() {
    let r = ResponsesRequest {
        model: "m".to_string(),
        instruction: None,
        input: vec![Message { role: "user".to_string(), content: "hi".to_string() }],
        stream: Some(true),
    };
    assert_eq!(r.input[0].role, "user");
    assert_eq!(r.clone(), r);
}
