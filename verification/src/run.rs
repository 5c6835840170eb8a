//! A run of a thread: the scripted exchange between the two agents that a
//! run publishes, one step at a time.

use vstd::prelude::*;

use crate::events::{event_of, ThreadEvent, ThreadEventKind};
use crate::reply::{Reply, Status};
use crate::stamp::Stamp;

verus! {

/// A request to run a thread, with an optional limit on its turns.
#[derive(Clone, Debug, PartialEq, Eq)]
pub struct RunThreadRequest {
    pub turn_limit: Option<u32>,
}

/// The body of the reply to a started run.
#[derive(Clone, Debug, PartialEq, Eq)]
pub struct RunAccepted {
    pub status: String,
    pub thread_id: u128,
    pub run_id: u128,
}

/// What the runner has to do next.
#[derive(Debug)]
pub enum RunStep {
    /// Publish this event to the thread's subscribers.
    Publish(ThreadEvent),
    /// Wait this many seconds.
    Pause(u64),
    /// The run is over.
    Done,
}

/// One step of the script, as planned.
pub enum PlannedStep {
    Start { turn_limit: u32 },
    Pause { secs: u64 },
    Say { role: Seq<char>, content: Seq<char> },
    Complete { generated: u32 },
    Done,
}

/// How many steps the script has before it is done.
pub open spec fn script_len() -> nat {
    7
}

/// The script: the run starts with a limit of two turns, each agent says
/// one line a second apart, and the run completes with two messages.
pub open spec fn planned_step(position: nat) -> PlannedStep {
    if position == 0 {
        PlannedStep::Start { turn_limit: 2 }
    } else if position == 2 {
        PlannedStep::Say { role: "agent_a"@, content: "こんにちは、今日はどんな話をしましょうか？"@ }
    } else if position == 4 {
        PlannedStep::Say { role: "agent_b"@, content: "春の散歩について話したいです。"@ }
    } else if position == 6 {
        PlannedStep::Complete { generated: 2 }
    } else if position < script_len() {
        PlannedStep::Pause { secs: 1 }
    } else {
        PlannedStep::Done
    }
}

/// `step` carries out `planned` for run `run_id` of thread `thread_id`:
/// every event belongs to the thread, names the run and carries `event`'s
/// id and instant; a message is created under `message`'s id and instant.
pub open spec fn carries_out(
    step: RunStep,
    planned: PlannedStep,
    thread_id: u128,
    run_id: u128,
    event: Stamp,
    message: Stamp,
) -> bool {
    match planned {
        PlannedStep::Start { turn_limit } => step == RunStep::Publish(
            event_of(event, thread_id, ThreadEventKind::RunStarted { run_id, turn_limit }),
        ),
        PlannedStep::Pause { secs } => step == RunStep::Pause(secs),
        PlannedStep::Say { role, content } => {
            &&& step matches RunStep::Publish(e)
            &&& e.kind matches ThreadEventKind::MessageCreated {
                run_id: r,
                message_id,
                role: said_by,
                content: said,
                created_at,
            }
            &&& e == event_of(event, thread_id, e.kind)
            &&& r == run_id
            &&& message_id == message.id
            &&& created_at == message.at
            &&& said_by@ == role
            &&& said@ == content
        },
        PlannedStep::Complete { generated } => step == RunStep::Publish(
            event_of(event, thread_id, ThreadEventKind::RunCompleted { run_id, generated_messages: generated }),
        ),
        PlannedStep::Done => step == RunStep::Done,
    }
}

/// How many of the first `n` planned steps are messages.
pub open spec fn messages_planned(n: nat) -> nat
    decreases n,
{
    if n == 0 {
        0
    } else {
        messages_planned((n - 1) as nat) + if planned_step((n - 1) as nat) is Say {
            1nat
        } else {
            0nat
        }
    }
}

/// A run in progress: the thread, the run, and how far the script got.
pub struct ScriptedRun {
    thread_id: u128,
    run_id: u128,
    position: usize,
}

impl ScriptedRun {
    /// A run never gets past the end of its script.
    #[verifier::type_invariant]
    spec fn within_script(self) -> bool {
        self.position <= 7
    }

    pub closed spec fn thread_of(self) -> u128 {
        self.thread_id
    }

    pub closed spec fn run_of(self) -> u128 {
        self.run_id
    }

    pub closed spec fn position_of(self) -> nat {
        self.position as nat
    }

    /// A run of the thread that has not taken any step yet.
    pub fn new(thread_id: u128, run_id: u128) -> (run: Self)
        ensures
            run.thread_of() == thread_id,
            run.run_of() == run_id,
            run.position_of() == 0,
    {
        ScriptedRun { thread_id, run_id, position: 0 }
    }

    /// How far the script got: the number of steps taken, at most the
    /// script's length.
    pub fn position(&self) -> (p: usize)
        ensures
            p == self.position_of(),
            p <= script_len(),
    {
        proof {
            use_type_invariant(self);
        }
        self.position
    }

    /// Takes the next step of the script; once the script is over, every
    /// further step is `Done`. A published event takes `event`'s id and
    /// instant, and a message created by the step takes `message`'s (the
    /// caller draws fresh ids and reads the clock).
    pub fn next_step(&mut self, event: Stamp, message: Stamp) -> (step: RunStep)
        ensures
            carries_out(
                step,
                planned_step(old(self).position_of()),
                old(self).thread_of(),
                old(self).run_of(),
                event,
                message,
            ),
            final(self).thread_of() == old(self).thread_of(),
            final(self).run_of() == old(self).run_of(),
            final(self).position_of() == if old(self).position_of() < script_len() {
                old(self).position_of() + 1
            } else {
                old(self).position_of()
            },
            final(self).position_of() <= script_len(),
    {
        proof {
            use_type_invariant(&*self);
        }
        let position = self.position;
        if position < 7 {
            self.position = position + 1;
        }
        if position == 0 {
            RunStep::Publish(ThreadEvent::run_started(self.thread_id, self.run_id, 2, event))
        } else if position == 2 {
            RunStep::Publish(
                ThreadEvent::message_created(
                    self.thread_id,
                    self.run_id,
                    message.id,
                    "agent_a".to_owned(),
                    "こんにちは、今日はどんな話をしましょうか？".to_owned(),
                    message.at,
                    event,
                ),
            )
        } else if position == 4 {
            RunStep::Publish(
                ThreadEvent::message_created(
                    self.thread_id,
                    self.run_id,
                    message.id,
                    "agent_b".to_owned(),
                    "春の散歩について話したいです。".to_owned(),
                    message.at,
                    event,
                ),
            )
        } else if position == 6 {
            RunStep::Publish(ThreadEvent::run_completed(self.thread_id, self.run_id, 2, event))
        } else if position < 7 {
            RunStep::Pause(1)
        } else {
            RunStep::Done
        }
    }
}

/// Starts run `run_id` of the thread (the caller draws a fresh id for it):
/// the reply, with status 202, names the thread and the run, and the run
/// that is handed back has the same ids and has not taken any step yet.
pub fn start_run(thread_id: u128, run_id: u128) -> (res: (Reply<RunAccepted>, ScriptedRun))
    ensures
        res.0.status == Status::Accepted,
        res.0.body.status@ == "started"@,
        res.0.body.thread_id == thread_id,
        res.0.body.run_id == run_id,
        res.1.thread_of() == thread_id,
        res.1.run_of() == run_id,
        res.1.position_of() == 0,
{
    let reply = Reply {
        status: Status::Accepted,
        body: RunAccepted { status: "started".to_owned(), thread_id, run_id },
    };
    (reply, ScriptedRun::new(thread_id, run_id))
}

/// A run opens by announcing a limit of as many turns as it then takes:
/// the first step starts the run, the last step before it is done completes
/// it, and both the turn limit and the count of generated messages equal
/// the number of messages the script has the agents say.
pub proof fn run_reports_its_messages()
    ensures
        planned_step(0) == (PlannedStep::Start { turn_limit: messages_planned(script_len()) as u32 }),
        planned_step((script_len() - 1) as nat) == (PlannedStep::Complete {
            generated: messages_planned(script_len()) as u32,
        }),
        messages_planned(script_len()) == 2,
        forall|p: nat| p >= script_len() ==> #[trigger] planned_step(p) == PlannedStep::Done,
{
    reveal_with_fuel(messages_planned, 8);
}

/// The script, step by step: the run starts with a limit of two turns,
/// waits a second between steps, has `agent_a` greet and `agent_b` answer,
/// and completes with two messages.
pub proof fn the_script()
    ensures
        planned_step(0) == (PlannedStep::Start { turn_limit: 2 }),
        planned_step(1) == (PlannedStep::Pause { secs: 1 }),
        planned_step(2) == (PlannedStep::Say {
            role: "agent_a"@,
            content: "こんにちは、今日はどんな話をしましょうか？"@,
        }),
        planned_step(3) == (PlannedStep::Pause { secs: 1 }),
        planned_step(4) == (PlannedStep::Say { role: "agent_b"@, content: "春の散歩について話したいです。"@ }),
        planned_step(5) == (PlannedStep::Pause { secs: 1 }),
        planned_step(6) == (PlannedStep::Complete { generated: 2 }),
        script_len() == 7,
{
}

/// A published step of a run names the run's thread and the run itself.
pub proof fn published_steps_name_their_run(
    step: RunStep,
    position: nat,
    thread_id: u128,
    run_id: u128,
    event: Stamp,
    message: Stamp,
)
    requires
        carries_out(step, planned_step(position), thread_id, run_id, event, message),
        step matches RunStep::Publish(_),
    ensures
        step matches RunStep::Publish(e) && e.thread_id == thread_id && e.id == event.id
            && e.occurred_at == event.at && match e.kind {
            ThreadEventKind::RunStarted { run_id: r, .. } => r == run_id,
            ThreadEventKind::MessageCreated { run_id: r, .. } => r == run_id,
            ThreadEventKind::RunCompleted { run_id: r, .. } => r == run_id,
            ThreadEventKind::RunFailed { run_id: r, .. } => r == run_id,
        },
{
}

} // verus!
