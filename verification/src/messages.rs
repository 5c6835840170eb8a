//! Messages of a thread: checking a request to post one, the steps of
//! posting it, and the replies that list or echo stored messages.

use vstd::prelude::*;

use crate::reply::{check_thread_lookup, storage_failure, thread_not_found_text, ErrorReply, Reply, Status};
use crate::stamp::{Stamp, Timestamp};
use crate::text::{is_blank, is_blank_text, same_text};

verus! {

/// A request to post a message to a thread.
#[derive(Clone, Debug, PartialEq, Eq)]
pub struct CreateMessageRequest {
    pub role: String,
    pub content: String,
}

/// A message about to be stored: `speaker` holds the poster's role.
#[derive(Clone, Debug, PartialEq, Eq)]
pub struct NewMessage {
    pub id: u128,
    pub thread_id: u128,
    pub speaker: String,
    pub content: String,
    pub created_at: Timestamp,
    pub updated_at: Timestamp,
}

/// A stored message as the database gives it back.
#[derive(Clone, Debug, PartialEq, Eq)]
pub struct MessageRow {
    pub id: u128,
    pub thread_id: u128,
    pub speaker: String,
    pub content: String,
    pub created_at: Timestamp,
}

/// The body of the reply to a posted message.
#[derive(Clone, Debug, PartialEq, Eq)]
pub struct CreateMessageResponse {
    pub id: u128,
    pub thread_id: u128,
    pub speaker: String,
    pub content: String,
    pub created_at: Timestamp,
}

/// One message in the listing of a thread's messages.
#[derive(Clone, Debug, PartialEq, Eq)]
pub struct MessageResponse {
    pub id: u128,
    pub thread_id: u128,
    pub role: String,
    pub content: String,
    pub created_at: Timestamp,
}

impl CreateMessageRequest {
    /// A request with the given role and content.
    pub fn new(role: String, content: String) -> (r: Self)
        ensures
            r == (CreateMessageRequest { role, content }),
    {
        CreateMessageRequest { role, content }
    }
}

/// The only role a posted message may have.
pub open spec fn user_role() -> Seq<char> {
    "user"@
}

/// The text of the reply to a request whose content is blank.
pub open spec fn content_required_text() -> Seq<char> {
    "content is required"@
}

/// The text of the reply to a request whose role is not `user`.
pub open spec fn role_must_be_user_text() -> Seq<char> {
    "role should be 'user'"@
}

/// Why a request to post a message is refused, if it is: blank content
/// first, then a role other than `user`.
pub open spec fn create_message_rejection(req: CreateMessageRequest) -> Option<Seq<char>> {
    if is_blank_text(req.content@) {
        Some(content_required_text())
    } else if req.role@ != user_role() {
        Some(role_must_be_user_text())
    } else {
        None
    }
}

/// Checks a request to post a message: refused with status 400 and the
/// reason of `create_message_rejection` when there is one.
pub fn validate_create_message(req: &CreateMessageRequest) -> (r: Result<(), ErrorReply>)
    ensures
        match create_message_rejection(*req) {
            None => r is Ok,
            Some(text) => {
                &&& r matches Err(e)
                &&& e.status == Status::BadRequest
                &&& e.message@ == text
            },
        },
{
    if is_blank(req.content.as_str()) {
        return Err(
            ErrorReply { status: Status::BadRequest, message: "content is required".to_owned() },
        );
    }
    if !same_text(req.role.as_str(), "user") {
        return Err(
            ErrorReply { status: Status::BadRequest, message: "role should be 'user'".to_owned() },
        );
    }
    Ok(())
}

/// A request is accepted exactly when it is a `user` message with
/// something other than white space in it.
pub proof fn accepted_requests_are_user_messages(req: CreateMessageRequest)
    ensures
        create_message_rejection(req) is None <==> (req.role@ == user_role() && !is_blank_text(req.content@)),
{
}

/// Blank content is reported whatever the role is: the content check comes
/// before the role check.
pub proof fn blank_content_is_reported_first(req: CreateMessageRequest)
    requires
        is_blank_text(req.content@),
    ensures
        create_message_rejection(req) == Some(content_required_text()),
{
}

/// Every message that an accepted request stores is a `user` message whose
/// content is not blank, in the thread it was posted to.
pub proof fn stored_messages_are_user_messages(
    req: CreateMessageRequest,
    id: u128,
    at: Timestamp,
    thread_id: u128,
)
    requires
        create_message_rejection(req) is None,
    ensures
        message_for(id, at, thread_id, req).speaker@ == user_role(),
        !is_blank_text(message_for(id, at, thread_id, req).content@),
        message_for(id, at, thread_id, req).thread_id == thread_id,
{
}

/// The message that a request stores: the request's role as speaker, its
/// content, and the same instant as creation and update time.
pub open spec fn message_for(id: u128, at: Timestamp, thread_id: u128, req: CreateMessageRequest) -> NewMessage {
    NewMessage {
        id,
        thread_id,
        speaker: req.role,
        content: req.content,
        created_at: at,
        updated_at: at,
    }
}

impl NewMessage {
    /// The message a request stores under the given id and instant.
    pub fn for_request(id: u128, at: Timestamp, thread_id: u128, req: &CreateMessageRequest) -> (m: Self)
        ensures
            m == message_for(id, at, thread_id, *req),
    {
        NewMessage {
            id,
            thread_id,
            speaker: req.role.clone(),
            content: req.content.clone(),
            created_at: at,
            updated_at: at,
        }
    }
}

/// The reply body for a stored message: the row as stored.
pub open spec fn created_message_body(row: MessageRow) -> CreateMessageResponse {
    CreateMessageResponse {
        id: row.id,
        thread_id: row.thread_id,
        speaker: row.speaker,
        content: row.content,
        created_at: row.created_at,
    }
}

/// The listing entry for a stored message: its speaker becomes the role.
pub open spec fn listed_message(row: MessageRow) -> MessageResponse {
    MessageResponse {
        id: row.id,
        thread_id: row.thread_id,
        role: row.speaker,
        content: row.content,
        created_at: row.created_at,
    }
}

impl CreateMessageResponse {
    /// The reply body for a stored message.
    pub fn from_row(row: MessageRow) -> (r: Self)
        ensures
            r == created_message_body(row),
            r.id == row.id,
            r.thread_id == row.thread_id,
            r.speaker == row.speaker,
            r.content == row.content,
            r.created_at == row.created_at,
    {
        CreateMessageResponse {
            id: row.id,
            thread_id: row.thread_id,
            speaker: row.speaker,
            content: row.content,
            created_at: row.created_at,
        }
    }
}

impl MessageResponse {
    /// The listing entry for a stored message.
    pub fn from_row(row: &MessageRow) -> (r: Self)
        ensures
            r == listed_message(*row),
            r.id == row.id,
            r.thread_id == row.thread_id,
            r.role == row.speaker,
            r.content == row.content,
            r.created_at == row.created_at,
    {
        MessageResponse {
            id: row.id,
            thread_id: row.thread_id,
            role: row.speaker.clone(),
            content: row.content.clone(),
            created_at: row.created_at,
        }
    }
}

/// The listing of a thread's messages: one entry per row, in the rows' order.
pub fn list_messages(rows: &Vec<MessageRow>) -> (r: Vec<MessageResponse>)
    ensures
        r.len() == rows.len(),
        forall|i: int| 0 <= i < rows.len() ==> #[trigger] r@[i] == listed_message(rows@[i]),
{
    let mut out: Vec<MessageResponse> = Vec::new();
    let n = rows.len();
    let mut i: usize = 0;
    while i < n
        invariant
            n == rows.len(),
            i <= n,
            out.len() == i,
            forall|j: int| 0 <= j < i ==> #[trigger] out@[j] == listed_message(rows@[j]),
        decreases n - i,
    {
        out.push(MessageResponse::from_row(&rows[i]));
        i = i + 1;
    }
    out
}

/// The reply to a request for a thread's messages, given what the query for
/// them returned: the listing with status 200, or status 500 with the
/// database error's text.
pub fn listed_messages(fetched: Result<Vec<MessageRow>, String>) -> (r: Result<Reply<Vec<MessageResponse>>, ErrorReply>)
    ensures
        match fetched {
            Ok(rows) => {
                &&& r matches Ok(reply)
                &&& reply.status == Status::Success
                &&& reply.body.len() == rows.len()
                &&& forall|i: int| 0 <= i < rows.len() ==> #[trigger] reply.body@[i] == listed_message(rows@[i])
            },
            Err(msg) => r == Err::<Reply<Vec<MessageResponse>>, ErrorReply>(
                ErrorReply { status: Status::InternalServerError, message: msg },
            ),
        },
{
    match fetched {
        Ok(rows) => Ok(Reply { status: Status::Success, body: list_messages(&rows) }),
        Err(msg) => Err(storage_failure(msg)),
    }
}

/// Where the posting of a message stands.
#[derive(Clone, Copy, Debug, PartialEq, Eq, Structural)]
pub enum CreateMessageStage {
    AwaitingThread,
    AwaitingInsert,
    Finished,
}

/// What the caller has to do next for a message being posted.
#[derive(Debug, PartialEq, Eq)]
pub enum CreateMessageAction {
    /// Look the thread up and report whether it exists.
    LookUpThread(u128),
    /// Store the message and report the stored row.
    Insert(NewMessage),
    /// Send this reply; the posting is over.
    Respond(Result<Reply<CreateMessageResponse>, ErrorReply>),
}

/// The posting of one message: the request is checked, the thread is looked
/// up, the message is stored, and the stored row is echoed with status 201.
pub struct CreateMessageFlow {
    thread_id: u128,
    request: CreateMessageRequest,
    stage: CreateMessageStage,
}

impl CreateMessageFlow {
    pub closed spec fn stage_of(self) -> CreateMessageStage {
        self.stage
    }

    pub closed spec fn thread_of(self) -> u128 {
        self.thread_id
    }

    pub closed spec fn request_of(self) -> CreateMessageRequest {
        self.request
    }

    /// A posting that has not finished holds a request that passed the check.
    pub closed spec fn wf(self) -> bool {
        self.stage != CreateMessageStage::Finished ==> create_message_rejection(self.request) is None
    }

    /// Starts posting `request` to thread `thread_id`: a refused request is
    /// answered at once with status 400; otherwise the thread is looked up.
    pub fn start(thread_id: u128, request: CreateMessageRequest) -> (res: (Self, CreateMessageAction))
        ensures
            res.0.wf(),
            res.0.thread_of() == thread_id,
            res.0.request_of() == request,
            match create_message_rejection(request) {
                None => res.0.stage_of() == CreateMessageStage::AwaitingThread
                    && res.1 == CreateMessageAction::LookUpThread(thread_id),
                Some(text) => {
                    &&& res.0.stage_of() == CreateMessageStage::Finished
                    &&& res.1 matches CreateMessageAction::Respond(Err(e))
                    &&& e.status == Status::BadRequest
                    &&& e.message@ == text
                },
            },
    {
        match validate_create_message(&request) {
            Ok(()) => {
                let flow = CreateMessageFlow { thread_id, request, stage: CreateMessageStage::AwaitingThread };
                (flow, CreateMessageAction::LookUpThread(thread_id))
            },
            Err(e) => {
                let flow = CreateMessageFlow { thread_id, request, stage: CreateMessageStage::Finished };
                (flow, CreateMessageAction::Respond(Err(e)))
            },
        }
    }

    /// Goes on once the thread was looked up: a database error is answered
    /// with status 500, a missing thread with status 404, and an existing
    /// thread leads to storing the message under the stamp's id, created
    /// and updated at the stamp's instant (the caller draws a fresh id and
    /// reads the clock). Whatever is stored is a `user` message with content
    /// that is not blank.
    pub fn on_thread_lookup(&mut self, found: Result<bool, String>, stamp: Stamp) -> (a: CreateMessageAction)
        requires
            old(self).wf(),
            old(self).stage_of() == CreateMessageStage::AwaitingThread,
        ensures
            final(self).wf(),
            final(self).thread_of() == old(self).thread_of(),
            final(self).request_of() == old(self).request_of(),
            match found {
                Ok(true) => {
                    &&& final(self).stage_of() == CreateMessageStage::AwaitingInsert
                    &&& a matches CreateMessageAction::Insert(m)
                    &&& m == message_for(stamp.id, stamp.at, old(self).thread_of(), old(self).request_of())
                    &&& m.speaker@ == user_role()
                    &&& !is_blank_text(m.content@)
                },
                Ok(false) => {
                    &&& final(self).stage_of() == CreateMessageStage::Finished
                    &&& a matches CreateMessageAction::Respond(Err(e))
                    &&& e.status == Status::NotFound
                    &&& e.message@ == thread_not_found_text()
                },
                Err(msg) => final(self).stage_of() == CreateMessageStage::Finished
                    && a == CreateMessageAction::Respond(Err(
                        ErrorReply { status: Status::InternalServerError, message: msg },
                    )),
            },
    {
        match check_thread_lookup(found) {
            Ok(()) => {
                let m = NewMessage::for_request(stamp.id, stamp.at, self.thread_id, &self.request);
                self.stage = CreateMessageStage::AwaitingInsert;
                CreateMessageAction::Insert(m)
            },
            Err(e) => {
                self.stage = CreateMessageStage::Finished;
                CreateMessageAction::Respond(Err(e))
            },
        }
    }

    /// Finishes once the message was stored: the stored row is echoed with
    /// status 201, or a database error is answered with status 500.
    pub fn on_inserted(&mut self, inserted: Result<MessageRow, String>) -> (a: CreateMessageAction)
        requires
            old(self).wf(),
            old(self).stage_of() == CreateMessageStage::AwaitingInsert,
        ensures
            final(self).wf(),
            final(self).stage_of() == CreateMessageStage::Finished,
            final(self).thread_of() == old(self).thread_of(),
            final(self).request_of() == old(self).request_of(),
            match inserted {
                Ok(row) => a == CreateMessageAction::Respond(Ok(
                    Reply { status: Status::Created, body: created_message_body(row) },
                )),
                Err(msg) => a == CreateMessageAction::Respond(Err(
                    ErrorReply { status: Status::InternalServerError, message: msg },
                )),
            },
    {
        self.stage = CreateMessageStage::Finished;
        match inserted {
            Ok(row) => CreateMessageAction::Respond(
                Ok(Reply { status: Status::Created, body: CreateMessageResponse::from_row(row) }),
            ),
            Err(msg) => CreateMessageAction::Respond(Err(storage_failure(msg))),
        }
    }
}

/// The reply to a posted message echoes the stored row field by field.
pub proof fn created_message_echoes_the_row(row: MessageRow)
    ensures
        created_message_body(row).id == row.id,
        created_message_body(row).thread_id == row.thread_id,
        created_message_body(row).speaker == row.speaker,
        created_message_body(row).content == row.content,
        created_message_body(row).created_at == row.created_at,
{
}

/// A listing entry is its row with the speaker named as the role; nothing
/// else changes.
pub proof fn listed_message_is_the_row(row: MessageRow)
    ensures
        listed_message(row).id == row.id,
        listed_message(row).thread_id == row.thread_id,
        listed_message(row).role == row.speaker,
        listed_message(row).content == row.content,
        listed_message(row).created_at == row.created_at,
{
}

/// Listing the rows of a thread keeps every row's content, speaker, id,
/// thread and time, in the rows' order.
pub proof fn listing_keeps_every_row(rows: Seq<MessageRow>, listed: Seq<MessageResponse>, i: int)
    requires
        listed.len() == rows.len(),
        forall|j: int| 0 <= j < rows.len() ==> #[trigger] listed[j] == listed_message(rows[j]),
        0 <= i < rows.len(),
    ensures
        listed[i].content == rows[i].content,
        listed[i].role == rows[i].speaker,
        listed[i].id == rows[i].id,
        listed[i].thread_id == rows[i].thread_id,
        listed[i].created_at == rows[i].created_at,
{
    assert(listed[i] == listed_message(rows[i]));
}

/// The message stored for a request is that request's role and content in
/// the thread it was posted to, under the given id, created and updated at
/// the given instant.
pub proof fn stored_message_is_the_request(id: u128, at: Timestamp, thread_id: u128, req: CreateMessageRequest)
    ensures
        message_for(id, at, thread_id, req).id == id,
        message_for(id, at, thread_id, req).thread_id == thread_id,
        message_for(id, at, thread_id, req).speaker == req.role,
        message_for(id, at, thread_id, req).content == req.content,
        message_for(id, at, thread_id, req).created_at == at,
        message_for(id, at, thread_id, req).updated_at == at,
{
}

/// The texts of the check: only `user` may post, and the two refusals read
/// "content is required" and "role should be 'user'".
pub proof fn message_check_texts()
    ensures
        user_role() == "user"@,
        content_required_text() == "content is required"@,
        role_must_be_user_text() == "role should be 'user'"@,
{
}

} // verus!
