//! Reply statuses and error replies shared by the request handlers.

use vstd::prelude::*;

verus! {

/// The HTTP statuses the service answers with.
#[derive(Clone, Copy, Debug, PartialEq, Eq, Structural)]
pub enum Status {
    Success,
    Created,
    Accepted,
    BadRequest,
    NotFound,
    InternalServerError,
    BadGateway,
}

impl Status {
    /// The numeric HTTP code of a status.
    pub open spec fn code_of(self) -> u16 {
        match self {
            Status::Success => 200,
            Status::Created => 201,
            Status::Accepted => 202,
            Status::BadRequest => 400,
            Status::NotFound => 404,
            Status::InternalServerError => 500,
            Status::BadGateway => 502,
        }
    }

    /// The numeric HTTP code of this status.
    pub fn code(&self) -> (c: u16)
        ensures
            c == self.code_of(),
    {
        match self {
            Status::Success => 200,
            Status::Created => 201,
            Status::Accepted => 202,
            Status::BadRequest => 400,
            Status::NotFound => 404,
            Status::InternalServerError => 500,
            Status::BadGateway => 502,
        }
    }
}

/// A failed request: its status and the text sent back as `{"error": ..}`.
#[derive(Clone, Debug, PartialEq, Eq)]
pub struct ErrorReply {
    pub status: Status,
    pub message: String,
}

/// A successful reply: its status and its body.
#[derive(Clone, Debug, PartialEq, Eq)]
pub struct Reply<T> {
    pub status: Status,
    pub body: T,
}

/// The text of the reply to a request about a thread that does not exist.
pub open spec fn thread_not_found_text() -> Seq<char> {
    "thread not found"@
}

/// The reply to a request about a thread that does not exist.
pub fn thread_not_found() -> (e: ErrorReply)
    ensures
        e.status == Status::NotFound,
        e.message@ == thread_not_found_text(),
{
    ErrorReply { status: Status::NotFound, message: "thread not found".to_owned() }
}

/// The reply to a failed database call: status 500 with the error's text.
pub fn storage_failure(message: String) -> (e: ErrorReply)
    ensures
        e == (ErrorReply { status: Status::InternalServerError, message }),
{
    ErrorReply { status: Status::InternalServerError, message }
}

/// What the outcome of looking a thread up means for the request: a
/// database error ends it with status 500 and the error's text, a thread
/// that is not there ends it with status 404, and a thread that is there
/// lets it go on.
pub fn check_thread_lookup(found: Result<bool, String>) -> (r: Result<(), ErrorReply>)
    ensures
        match found {
            Ok(true) => r is Ok,
            Ok(false) => {
                &&& r matches Err(e)
                &&& e.status == Status::NotFound
                &&& e.message@ == thread_not_found_text()
            },
            Err(msg) => r == Err::<(), ErrorReply>(
                ErrorReply { status: Status::InternalServerError, message: msg },
            ),
        },
{
    match found {
        Ok(true) => Ok(()),
        Ok(false) => Err(thread_not_found()),
        Err(msg) => Err(storage_failure(msg)),
    }
}

/// The numeric codes of the statuses, as HTTP defines them.
pub proof fn status_codes_are_http_codes()
    ensures
        Status::Success.code_of() == 200,
        Status::Created.code_of() == 201,
        Status::Accepted.code_of() == 202,
        Status::BadRequest.code_of() == 400,
        Status::NotFound.code_of() == 404,
        Status::InternalServerError.code_of() == 500,
        Status::BadGateway.code_of() == 502,
        thread_not_found_text() == "thread not found"@,
{
}

/// Different statuses have different codes.
pub proof fn status_codes_differ(a: Status, b: Status)
    ensures
        a.code_of() == b.code_of() <==> a == b,
{
}

} // verus!
