//! Forwarding a responses request to the model server and deciding how its
//! answer is passed back: as an event stream or as a JSON body.

use vstd::prelude::*;

use crate::reply::{ErrorReply, Status};
use crate::text::{has_prefix, has_prefix_text};

verus! {

/// One input message of a responses request.
#[derive(Clone, Debug, PartialEq, Eq)]
pub struct Message {
    pub role: String,
    pub content: String,
}

/// A responses request, forwarded as it is.
#[derive(Clone, Debug, PartialEq, Eq)]
pub struct ResponsesRequest {
    pub model: String,
    pub instruction: Option<String>,
    pub input: Vec<Message>,
    pub stream: Option<bool>,
}

/// How the model server's answer is passed back.
#[derive(Clone, Copy, Debug, PartialEq, Eq, Structural)]
pub enum UpstreamBody {
    /// Streamed through as `text/event-stream`, uncached.
    EventStream,
    /// Read as JSON and sent back with the server's status.
    Json,
}

/// Where responses requests are forwarded.
pub open spec fn upstream_url_text() -> Seq<char> {
    "http://localhost:8000/v1/responses"@
}

/// The content type of a streamed answer.
pub open spec fn event_stream_text() -> Seq<char> {
    "text/event-stream"@
}

/// Where responses requests are forwarded.
pub fn upstream_url() -> (url: String)
    ensures
        url@ == upstream_url_text(),
{
    "http://localhost:8000/v1/responses".to_owned()
}

/// How the answer is passed back, given its content type (`None` when the
/// header is missing or not visible text, which counts as empty): a type
/// that starts with `text/event-stream` is streamed, anything else is read
/// as JSON.
pub fn body_kind(content_type: Option<&str>) -> (kind: UpstreamBody)
    ensures
        kind == (if content_type matches Some(t) && has_prefix_text(t@, event_stream_text()) {
            UpstreamBody::EventStream
        } else {
            UpstreamBody::Json
        }),
{
    match content_type {
        Some(t) => if has_prefix(t, "text/event-stream") {
            UpstreamBody::EventStream
        } else {
            UpstreamBody::Json
        },
        None => UpstreamBody::Json,
    }
}

/// The headers of a streamed answer, in order: its content type and
/// `cache-control: no-cache`.
pub fn event_stream_headers() -> (headers: Vec<(String, String)>)
    ensures
        headers.len() == 2,
        headers@[0].0@ == "content-type"@,
        headers@[0].1@ == event_stream_text(),
        headers@[1].0@ == "cache-control"@,
        headers@[1].1@ == "no-cache"@,
{
    let mut headers: Vec<(String, String)> = Vec::new();
    headers.push(("content-type".to_owned(), "text/event-stream".to_owned()));
    headers.push(("cache-control".to_owned(), "no-cache".to_owned()));
    headers
}

/// The reply when the model server cannot be reached or its answer cannot
/// be read as JSON: status 502 with the error's text.
pub fn bad_gateway(message: String) -> (e: ErrorReply)
    ensures
        e == (ErrorReply { status: Status::BadGateway, message }),
{
    ErrorReply { status: Status::BadGateway, message }
}

/// Where requests go, and which content type is streamed.
pub proof fn upstream_texts()
    ensures
        upstream_url_text() == "http://localhost:8000/v1/responses"@,
        event_stream_text() == "text/event-stream"@,
{
}

} // verus!
