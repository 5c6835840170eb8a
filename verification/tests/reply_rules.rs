use api::reply::{check_thread_lookup, storage_failure, thread_not_found, ErrorReply, Status};

#[test]
fn status_codes() {
    assert_eq!(Status::Success.code(), 200);
    assert_eq!(Status::Created.code(), 201);
    assert_eq!(Status::Accepted.code(), 202);
    assert_eq!(Status::BadRequest.code(), 400);
    assert_eq!(Status::NotFound.code(), 404);
    assert_eq!(Status::InternalServerError.code(), 500);
    assert_eq!(Status::BadGateway.code(), 502);
}

#[test]
fn missing_thread_reply() {
    let e = thread_not_found();
    assert_eq!(e.status, Status::NotFound);
    assert_eq!(e.message, "thread not found");
}

#[test]
fn storage_failure_keeps_the_error_text() {
    let e = storage_failure("connection refused".to_string());
    assert_eq!(e, ErrorReply { status: Status::InternalServerError, message: "connection refused".to_string() });
}

#[test]
fn thread_lookup_outcomes() {
    assert_eq!(check_thread_lookup(Ok(true)), Ok(()));
    assert_eq!(
        check_thread_lookup(Ok(false)),
        Err(ErrorReply { status: Status::NotFound, message: "thread not found".to_string() })
    );
    assert_eq!(
        check_thread_lookup(Err("pool timed out".to_string())),
        Err(ErrorReply { status: Status::InternalServerError, message: "pool timed out".to_string() })
    );
}
