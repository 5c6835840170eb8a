use api::messages::{
    list_messages, listed_messages, validate_create_message, CreateMessageAction, CreateMessageFlow,
    CreateMessageRequest, CreateMessageResponse, MessageResponse, MessageRow, NewMessage,
};
use api::reply::{ErrorReply, Reply, Status};
use api::stamp::{Stamp, Timestamp};

fn st() -> Stamp {
    Stamp { id: 0x5555, at: Timestamp { secs: 77, nanos: 8 } }
}

fn req(role: &str, content: &str) -> CreateMessageRequest {
    CreateMessageRequest::new(role.to_string(), content.to_string())
}

fn bad_request(text: &str) -> ErrorReply {
    ErrorReply { status: Status::BadRequest, message: text.to_string() }
}

fn row(id: u128, speaker: &str, content: &str, secs: i64) -> MessageRow {
    MessageRow {
        id,
        thread_id: 7,
        speaker: speaker.to_string(),
        content: content.to_string(),
        created_at: Timestamp { secs, nanos: 5 },
    }
}

#[test]
fn user_message_with_content_is_accepted() {
    assert_eq!(validate_create_message(&req("user", "hello")), Ok(()));
    assert_eq!(validate_create_message(&req("user", "  hello  ")), Ok(()));
}

#[test]
fn blank_content_is_refused_first() {
    assert_eq!(validate_create_message(&req("user", "")), Err(bad_request("content is required")));
    assert_eq!(validate_create_message(&req("user", " \n\t ")), Err(bad_request("content is required")));
    assert_eq!(validate_create_message(&req("assistant", "   ")), Err(bad_request("content is required")));
}

#[test]
fn other_roles_are_refused() {
    assert_eq!(validate_create_message(&req("assistant", "hi")), Err(bad_request("role should be 'user'")));
    assert_eq!(validate_create_message(&req("User", "hi")), Err(bad_request("role should be 'user'")));
    assert_eq!(validate_create_message(&req(" user", "hi")), Err(bad_request("role should be 'user'")));
    assert_eq!(validate_create_message(&req("", "hi")), Err(bad_request("role should be 'user'")));
}

#[test]
fn new_message_takes_the_request() {
    let at = Timestamp { secs: 100, nanos: 3 };
    let m = NewMessage::for_request(9, at, 7, &req("user", "hello"));
    assert_eq!(
        m,
        NewMessage {
            id: 9,
            thread_id: 7,
            speaker: "user".to_string(),
            content: "hello".to_string(),
            created_at: at,
            updated_at: at,
        }
    );
}

#[test]
fn posting_a_message_end_to_end() {
    let (mut flow, action) = CreateMessageFlow::start(7, req("user", "hello"));
    assert_eq!(action, CreateMessageAction::LookUpThread(7));
    let action = flow.on_thread_lookup(Ok(true), st());
    let m = match action {
        CreateMessageAction::Insert(m) => m,
        other => panic!("expected an insert, got {:?}", other),
    };
    assert_eq!(m.thread_id, 7);
    assert_eq!(m.speaker, "user");
    assert_eq!(m.content, "hello");
    assert_eq!(m.created_at, m.updated_at);
    assert_eq!(m.id, 0x5555);
    assert_eq!(m.created_at, Timestamp { secs: 77, nanos: 8 });
    let stored = MessageRow {
        id: m.id,
        thread_id: m.thread_id,
        speaker: m.speaker.clone(),
        content: m.content.clone(),
        created_at: m.created_at,
    };
    let action = flow.on_inserted(Ok(stored));
    assert_eq!(
        action,
        CreateMessageAction::Respond(Ok(Reply {
            status: Status::Created,
            body: CreateMessageResponse {
                id: m.id,
                thread_id: 7,
                speaker: "user".to_string(),
                content: "hello".to_string(),
                created_at: m.created_at,
            },
        }))
    );
}

#[test]
fn posting_a_refused_message_answers_at_once() {
    let (_, action) = CreateMessageFlow::start(7, req("bot", "hello"));
    assert_eq!(action, CreateMessageAction::Respond(Err(bad_request("role should be 'user'"))));
}

#[test]
fn posting_to_a_missing_thread() {
    let (mut flow, _) = CreateMessageFlow::start(7, req("user", "hello"));
    assert_eq!(
        flow.on_thread_lookup(Ok(false), st()),
        CreateMessageAction::Respond(Err(ErrorReply {
            status: Status::NotFound,
            message: "thread not found".to_string(),
        }))
    );
}

#[test]
fn posting_when_the_database_fails() {
    let (mut flow, _) = CreateMessageFlow::start(7, req("user", "hello"));
    assert_eq!(
        flow.on_thread_lookup(Err("db down".to_string()), st()),
        CreateMessageAction::Respond(Err(ErrorReply {
            status: Status::InternalServerError,
            message: "db down".to_string(),
        }))
    );
    let (mut flow, _) = CreateMessageFlow::start(7, req("user", "hello"));
    let _ = flow.on_thread_lookup(Ok(true), st());
    assert_eq!(
        flow.on_inserted(Err("unique violation".to_string())),
        CreateMessageAction::Respond(Err(ErrorReply {
            status: Status::InternalServerError,
            message: "unique violation".to_string(),
        }))
    );
}

#[test]
fn listing_keeps_order_and_names_the_speaker_role() {
    let rows = vec![row(1, "user", "a", 10), row(2, "agent_a", "b", 11), row(3, "user", "c", 11)];
    let listed = list_messages(&rows);
    assert_eq!(listed.len(), 3);
    assert_eq!(
        listed[1],
        MessageResponse {
            id: 2,
            thread_id: 7,
            role: "agent_a".to_string(),
            content: "b".to_string(),
            created_at: Timestamp { secs: 11, nanos: 5 },
        }
    );
    assert_eq!(listed.iter().map(|m| m.id).collect::<Vec<_>>(), vec![1, 2, 3]);
}

#[test]
fn listing_replies() {
    let ok = listed_messages(Ok(vec![row(4, "user", "x", 1)])).unwrap();
    assert_eq!(ok.status, Status::Success);
    assert_eq!(ok.body.len(), 1);
    assert_eq!(ok.body[0].role, "user");
    let empty = listed_messages(Ok(vec![])).unwrap();
    assert!(empty.body.is_empty());
    assert_eq!(
        listed_messages(Err("boom".to_string())),
        Err(ErrorReply { status: Status::InternalServerError, message: "boom".to_string() })
    );
}
