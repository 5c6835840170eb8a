//! Threads: a conversation between two agents, created idle.

use vstd::prelude::*;

use crate::reply::{storage_failure, ErrorReply, Reply, Status};
use crate::stamp::Timestamp;

verus! {

/// One of the two agents of a thread: its name and its persona.
#[derive(Clone, Debug, PartialEq, Eq)]
pub struct CreateAgentRequest {
    pub name: String,
    pub persona: String,
}

/// A request to create a thread between two agents.
#[derive(Clone, Debug, PartialEq, Eq)]
pub struct CreateThreadRequest {
    pub title: String,
    pub agent_a: CreateAgentRequest,
    pub agent_b: CreateAgentRequest,
}

/// A thread about to be stored.
#[derive(Clone, Debug, PartialEq, Eq)]
pub struct NewThread {
    pub id: u128,
    pub title: String,
    pub status: String,
    pub agent_a_name: String,
    pub agent_a_persona: String,
    pub agent_b_name: String,
    pub agent_b_persona: String,
    pub created_at: Timestamp,
    pub updated_at: Timestamp,
}

/// A stored thread as the database gives it back.
#[derive(Clone, Debug, PartialEq, Eq)]
pub struct ThreadRow {
    pub id: u128,
    pub title: String,
    pub status: String,
    pub agent_a_name: String,
    pub agent_a_persona: String,
    pub agent_b_name: String,
    pub agent_b_persona: String,
    pub created_at: Timestamp,
}

/// The body of the reply to a created thread.
#[derive(Clone, Debug, PartialEq, Eq)]
pub struct CreateThreadResponse {
    pub id: u128,
    pub title: String,
    pub status: String,
    pub agent_a: CreateAgentRequest,
    pub agent_b: CreateAgentRequest,
    pub created_at: Timestamp,
}

/// The status every thread is created with.
pub open spec fn idle_status() -> Seq<char> {
    "idle"@
}

/// `t` is the thread that `req` creates under `id` at instant `at`: the
/// request's title and agents, status `idle`, created and updated at `at`.
pub open spec fn is_thread_for(t: NewThread, id: u128, at: Timestamp, req: CreateThreadRequest) -> bool {
    &&& t.id == id
    &&& t.title == req.title
    &&& t.status@ == idle_status()
    &&& t.agent_a_name == req.agent_a.name
    &&& t.agent_a_persona == req.agent_a.persona
    &&& t.agent_b_name == req.agent_b.name
    &&& t.agent_b_persona == req.agent_b.persona
    &&& t.created_at == at
    &&& t.updated_at == at
}

impl NewThread {
    /// The thread that a request creates under the given id and instant.
    pub fn for_request(id: u128, at: Timestamp, req: &CreateThreadRequest) -> (t: Self)
        ensures
            is_thread_for(t, id, at, *req),
    {
        NewThread {
            id,
            title: req.title.clone(),
            status: "idle".to_owned(),
            agent_a_name: req.agent_a.name.clone(),
            agent_a_persona: req.agent_a.persona.clone(),
            agent_b_name: req.agent_b.name.clone(),
            agent_b_persona: req.agent_b.persona.clone(),
            created_at: at,
            updated_at: at,
        }
    }
}

/// The reply body for a stored thread: the row, with each agent's name and
/// persona put back together.
pub open spec fn created_thread_body(row: ThreadRow) -> CreateThreadResponse {
    CreateThreadResponse {
        id: row.id,
        title: row.title,
        status: row.status,
        agent_a: CreateAgentRequest { name: row.agent_a_name, persona: row.agent_a_persona },
        agent_b: CreateAgentRequest { name: row.agent_b_name, persona: row.agent_b_persona },
        created_at: row.created_at,
    }
}

impl CreateThreadResponse {
    /// The reply body for a stored thread.
    pub fn from_row(row: ThreadRow) -> (r: Self)
        ensures
            r == created_thread_body(row),
            r.id == row.id,
            r.title == row.title,
            r.status == row.status,
            r.agent_a.name == row.agent_a_name,
            r.agent_a.persona == row.agent_a_persona,
            r.agent_b.name == row.agent_b_name,
            r.agent_b.persona == row.agent_b_persona,
            r.created_at == row.created_at,
    {
        CreateThreadResponse {
            id: row.id,
            title: row.title,
            status: row.status,
            agent_a: CreateAgentRequest { name: row.agent_a_name, persona: row.agent_a_persona },
            agent_b: CreateAgentRequest { name: row.agent_b_name, persona: row.agent_b_persona },
            created_at: row.created_at,
        }
    }
}

/// The reply to a request to create a thread, given what storing it
/// returned: the stored thread with status 201, or status 500 with the
/// database error's text.
pub fn created_thread(inserted: Result<ThreadRow, String>) -> (r: Result<Reply<CreateThreadResponse>, ErrorReply>)
    ensures
        match inserted {
            Ok(row) => r == Ok::<Reply<CreateThreadResponse>, ErrorReply>(
                Reply { status: Status::Created, body: created_thread_body(row) },
            ),
            Err(msg) => r == Err::<Reply<CreateThreadResponse>, ErrorReply>(
                ErrorReply { status: Status::InternalServerError, message: msg },
            ),
        },
{
    match inserted {
        Ok(row) => Ok(Reply { status: Status::Created, body: CreateThreadResponse::from_row(row) }),
        Err(msg) => Err(storage_failure(msg)),
    }
}

/// A created thread is echoed as stored: every field of the reply body is
/// the stored row's column of the same name, the agents' names and
/// personas regrouped under `agent_a` and `agent_b`, with status 201.
pub proof fn created_thread_echoes_the_row(row: ThreadRow)
    ensures
        created_thread_body(row).id == row.id,
        created_thread_body(row).title == row.title,
        created_thread_body(row).status == row.status,
        created_thread_body(row).agent_a.name == row.agent_a_name,
        created_thread_body(row).agent_a.persona == row.agent_a_persona,
        created_thread_body(row).agent_b.name == row.agent_b_name,
        created_thread_body(row).agent_b.persona == row.agent_b_persona,
        created_thread_body(row).created_at == row.created_at,
{
}

/// Threads are created idle.
pub proof fn threads_start_idle()
    ensures
        idle_status() == "idle"@,
{
}

} // verus!
