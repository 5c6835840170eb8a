//! Events of a thread's runs, as subscribers receive them.

use vstd::prelude::*;

use crate::stamp::{Stamp, Timestamp};

verus! {

/// What happened in a run.
#[derive(Clone, Debug, PartialEq, Eq)]
pub enum ThreadEventKind {
    RunStarted { run_id: u128, turn_limit: u32 },
    MessageCreated {
        run_id: u128,
        message_id: u128,
        role: String,
        content: String,
        created_at: Timestamp,
    },
    RunCompleted { run_id: u128, generated_messages: u32 },
    RunFailed { run_id: u128, error: String },
}

/// An event of a thread: its own id, the thread, when it occurred, and what
/// happened.
#[derive(Clone, Debug, PartialEq, Eq)]
pub struct ThreadEvent {
    pub id: u128,
    pub thread_id: u128,
    pub occurred_at: Timestamp,
    pub kind: ThreadEventKind,
}

/// The name under which an event of this kind is sent to subscribers.
pub open spec fn event_name_of(kind: ThreadEventKind) -> Seq<char> {
    match kind {
        ThreadEventKind::RunStarted { .. } => "run.started"@,
        ThreadEventKind::MessageCreated { .. } => "message.created"@,
        ThreadEventKind::RunCompleted { .. } => "run.completed"@,
        ThreadEventKind::RunFailed { .. } => "run.failed"@,
    }
}

/// Two kinds are the same variant, whatever their fields.
pub open spec fn same_variant(a: ThreadEventKind, b: ThreadEventKind) -> bool {
    match (a, b) {
        (ThreadEventKind::RunStarted { .. }, ThreadEventKind::RunStarted { .. }) => true,
        (ThreadEventKind::MessageCreated { .. }, ThreadEventKind::MessageCreated { .. }) => true,
        (ThreadEventKind::RunCompleted { .. }, ThreadEventKind::RunCompleted { .. }) => true,
        (ThreadEventKind::RunFailed { .. }, ThreadEventKind::RunFailed { .. }) => true,
        _ => false,
    }
}

/// The event of the given kind for thread `thread_id`, with the stamp's id
/// as its own id and the stamp's instant as the time it occurred.
pub open spec fn event_of(stamp: Stamp, thread_id: u128, kind: ThreadEventKind) -> ThreadEvent {
    ThreadEvent { id: stamp.id, thread_id, occurred_at: stamp.at, kind }
}

impl ThreadEvent {
    /// An event with the given id, thread, instant and kind.
    pub fn stamped(id: u128, thread_id: u128, occurred_at: Timestamp, kind: ThreadEventKind) -> (e: Self)
        ensures
            e == (ThreadEvent { id, thread_id, occurred_at, kind }),
    {
        ThreadEvent { id, thread_id, occurred_at, kind }
    }

    /// The event that a run started, allowed `turn_limit` turns.
    pub fn run_started(thread_id: u128, run_id: u128, turn_limit: u32, stamp: Stamp) -> (e: Self)
        ensures
            e == event_of(stamp, thread_id, ThreadEventKind::RunStarted { run_id, turn_limit }),
    {
        ThreadEvent::stamped(stamp.id, thread_id, stamp.at, ThreadEventKind::RunStarted { run_id, turn_limit })
    }

    /// The event that a run produced a message.
    pub fn message_created(
        thread_id: u128,
        run_id: u128,
        message_id: u128,
        role: String,
        content: String,
        created_at: Timestamp,
        stamp: Stamp,
    ) -> (e: Self)
        ensures
            e == event_of(
                stamp,
                thread_id,
                ThreadEventKind::MessageCreated { run_id, message_id, role, content, created_at },
            ),
    {
        ThreadEvent::stamped(
            stamp.id,
            thread_id,
            stamp.at,
            ThreadEventKind::MessageCreated { run_id, message_id, role, content, created_at },
        )
    }

    /// The event that a run finished after producing `generated_messages`
    /// messages.
    pub fn run_completed(thread_id: u128, run_id: u128, generated_messages: u32, stamp: Stamp) -> (e: Self)
        ensures
            e == event_of(stamp, thread_id, ThreadEventKind::RunCompleted { run_id, generated_messages }),
    {
        ThreadEvent::stamped(
            stamp.id,
            thread_id,
            stamp.at,
            ThreadEventKind::RunCompleted { run_id, generated_messages },
        )
    }

    /// The event that a run failed with `error`.
    pub fn run_failed(thread_id: u128, run_id: u128, error: String, stamp: Stamp) -> (e: Self)
        ensures
            e == event_of(stamp, thread_id, ThreadEventKind::RunFailed { run_id, error }),
    {
        ThreadEvent::stamped(stamp.id, thread_id, stamp.at, ThreadEventKind::RunFailed { run_id, error })
    }

    /// The name under which this event is sent to subscribers.
    pub fn event_name(&self) -> (name: String)
        ensures
            name@ == event_name_of(self.kind),
    {
        match self.kind {
            ThreadEventKind::RunStarted { .. } => "run.started".to_owned(),
            ThreadEventKind::MessageCreated { .. } => "message.created".to_owned(),
            ThreadEventKind::RunCompleted { .. } => "run.completed".to_owned(),
            ThreadEventKind::RunFailed { .. } => "run.failed".to_owned(),
        }
    }
}

/// Subscribers can tell what happened from an event's name alone: two
/// events have the same name exactly when they are of the same kind.
pub proof fn event_names_tell_kinds_apart(a: ThreadEventKind, b: ThreadEventKind)
    ensures
        event_name_of(a) == event_name_of(b) <==> same_variant(a, b),
{
    reveal_strlit("run.started");
    reveal_strlit("message.created");
    reveal_strlit("run.completed");
    reveal_strlit("run.failed");
    if event_name_of(a) == event_name_of(b) && !same_variant(a, b) {
        let x = event_name_of(a);
        let y = event_name_of(b);
        assert(x.len() != y.len() || x[0] != y[0] || x[4] != y[4]);
    }
}

/// An event made from a stamp carries the stamp's id and instant, the
/// thread it was made for, and the kind it was given.
pub proof fn events_carry_their_stamp(stamp: Stamp, thread_id: u128, kind: ThreadEventKind)
    ensures
        event_of(stamp, thread_id, kind).id == stamp.id,
        event_of(stamp, thread_id, kind).occurred_at == stamp.at,
        event_of(stamp, thread_id, kind).thread_id == thread_id,
        event_of(stamp, thread_id, kind).kind == kind,
{
}

/// The names under which events are sent.
pub proof fn event_names(run_id: u128, turn_limit: u32, message_id: u128, role: String, content: String, created_at: Timestamp, generated_messages: u32, error: String)
    ensures
        event_name_of(ThreadEventKind::RunStarted { run_id, turn_limit }) == "run.started"@,
        event_name_of(ThreadEventKind::MessageCreated { run_id, message_id, role, content, created_at }) == "message.created"@,
        event_name_of(ThreadEventKind::RunCompleted { run_id, generated_messages }) == "run.completed"@,
        event_name_of(ThreadEventKind::RunFailed { run_id, error }) == "run.failed"@,
{
}

} // verus!
